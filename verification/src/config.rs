//! The run's configuration and the command line that sets it.

use vstd::prelude::*;
use vstd::string::*;
use crate::coords::{parse_pair, string_to_tuples};
use crate::error::CoordError;
use crate::geometry::{Point, Rectangle};

verus! {

/// The configuration of one run, made once at startup and handed on.
#[derive(Clone, Debug)]
pub struct CliOpts {
    /// The source file or directory.
    pub source_image_path: String,
    /// The directory that receives the archive copies of the sources.
    pub processed_image_path: String,
    /// The directory that receives the cropped images.
    pub result_image_path: String,
    /// The left-top corner, as `"x,y"`.
    pub left_top: String,
    /// The right-bottom corner, as `"x,y"`.
    pub right_bottom: String,
    /// The tag put into the names of the cropped images.
    pub tag_name: String,
}

/// A configuration as contracts see it.
pub struct CliOptsView {
    pub source_image_path: Seq<char>,
    pub processed_image_path: Seq<char>,
    pub result_image_path: Seq<char>,
    pub left_top: Seq<char>,
    pub right_bottom: Seq<char>,
    pub tag_name: Seq<char>,
}

impl View for CliOpts {
    type V = CliOptsView;

    open spec fn view(&self) -> CliOptsView {
        CliOptsView {
            source_image_path: self.source_image_path@,
            processed_image_path: self.processed_image_path@,
            result_image_path: self.result_image_path@,
            left_top: self.left_top@,
            right_bottom: self.right_bottom@,
            tag_name: self.tag_name@,
        }
    }
}

/// The six settings that a flag can name.
#[derive(Clone, Copy, Debug, PartialEq, Eq, Structural)]
pub enum Flag {
    Source,
    Processed,
    Results,
    LeftTop,
    RightBottom,
    Tag,
}

/// Why a command line was rejected.
#[derive(Clone, Copy, Debug, PartialEq, Eq, Structural)]
pub enum CliError {
    /// An argument in a flag's place is none of the known flags.
    UnknownFlag,
    /// The last flag has no value after it.
    MissingValue,
}

/// The setting that an argument names, in its short or its long form.
pub open spec fn flag_of(arg: Seq<char>) -> Option<Flag> {
    if arg == "-s"@ || arg == "--source-image-path"@ {
        Some(Flag::Source)
    } else if arg == "-p"@ || arg == "--processed-image-path"@ {
        Some(Flag::Processed)
    } else if arg == "-r"@ || arg == "--result-image-path"@ {
        Some(Flag::Results)
    } else if arg == "-t"@ || arg == "--left-top"@ {
        Some(Flag::LeftTop)
    } else if arg == "-b"@ || arg == "--right-bottom"@ {
        Some(Flag::RightBottom)
    } else if arg == "-w"@ || arg == "--tag-name"@ {
        Some(Flag::Tag)
    } else {
        None
    }
}

/// The configuration of a command line without arguments.
pub open spec fn default_opts() -> CliOptsView {
    CliOptsView {
        source_image_path: "./thisimages"@,
        processed_image_path: "./processedimages"@,
        result_image_path: "./resultsimages"@,
        left_top: "0,0"@,
        right_bottom: "20,15"@,
        tag_name: "center"@,
    }
}

/// The configuration with one setting replaced.
pub open spec fn with_flag(opts: CliOptsView, flag: Flag, value: Seq<char>) -> CliOptsView {
    match flag {
        Flag::Source => CliOptsView { source_image_path: value, ..opts },
        Flag::Processed => CliOptsView { processed_image_path: value, ..opts },
        Flag::Results => CliOptsView { result_image_path: value, ..opts },
        Flag::LeftTop => CliOptsView { left_top: value, ..opts },
        Flag::RightBottom => CliOptsView { right_bottom: value, ..opts },
        Flag::Tag => CliOptsView { tag_name: value, ..opts },
    }
}

/// The configuration that the arguments from position `i` on make of `opts`:
/// they come in pairs, a flag and its value, and a later pair wins over an
/// earlier one for the same setting.
pub open spec fn parsed_from(args: Seq<Seq<char>>, i: nat, opts: CliOptsView) -> Result<
    CliOptsView,
    CliError,
>
    decreases args.len() - i,
{
    if i >= args.len() {
        Ok(opts)
    } else {
        match flag_of(args[i as int]) {
            None => Err(CliError::UnknownFlag),
            Some(flag) => if i + 1 >= args.len() {
                Err(CliError::MissingValue)
            } else {
                parsed_from(args, i + 2, with_flag(opts, flag, args[i as int + 1]))
            },
        }
    }
}

/// The views of a list of arguments.
pub open spec fn arg_views(args: Seq<String>) -> Seq<Seq<char>> {
    args.map_values(|a: String| a@)
}

/// The rectangle that two coordinate texts stand for.
pub open spec fn rectangle_of(left_top: Seq<char>, right_bottom: Seq<char>) -> Result<
    Rectangle,
    CoordError,
> {
    match parse_pair(left_top) {
        Err(e) => Err(e),
        Ok(lt) => match parse_pair(right_bottom) {
            Err(e) => Err(e),
            Ok(rb) => Ok(
                Rectangle {
                    left_top: Point { x: lt.0, y: lt.1 },
                    right_bottom: Point { x: rb.0, y: rb.1 },
                },
            ),
        },
    }
}

fn same_text(arg: &String, text: &str) -> (r: bool)
    ensures
        r == (arg@ == text@),
{
    let other = String::from_str(text);
    *arg == other
}

fn read_flag(arg: &String) -> (r: Option<Flag>)
    ensures
        r == flag_of(arg@),
{
    if same_text(arg, "-s") || same_text(arg, "--source-image-path") {
        Some(Flag::Source)
    } else if same_text(arg, "-p") || same_text(arg, "--processed-image-path") {
        Some(Flag::Processed)
    } else if same_text(arg, "-r") || same_text(arg, "--result-image-path") {
        Some(Flag::Results)
    } else if same_text(arg, "-t") || same_text(arg, "--left-top") {
        Some(Flag::LeftTop)
    } else if same_text(arg, "-b") || same_text(arg, "--right-bottom") {
        Some(Flag::RightBottom)
    } else if same_text(arg, "-w") || same_text(arg, "--tag-name") {
        Some(Flag::Tag)
    } else {
        None
    }
}

impl CliOpts {
    /// The configuration of a command line without arguments.
    pub fn defaults() -> (r: CliOpts)
        ensures
            r@ == default_opts(),
    {
        CliOpts {
            source_image_path: String::from_str("./thisimages"),
            processed_image_path: String::from_str("./processedimages"),
            result_image_path: String::from_str("./resultsimages"),
            left_top: String::from_str("0,0"),
            right_bottom: String::from_str("20,15"),
            tag_name: String::from_str("center"),
        }
    }

    /// Reads the arguments that follow the program's name. Each setting has
    /// a short and a long flag, followed by its value in the next argument;
    /// a setting that no flag names keeps its default. An argument in a
    /// flag's place that is no known flag, and a flag without a value, are
    /// rejected.
    pub fn parse_cli(args: &Vec<String>) -> (r: Result<CliOpts, CliError>)
        ensures
            match r {
                Ok(opts) => parsed_from(arg_views(args@), 0, default_opts()) == Ok::<
                    CliOptsView,
                    CliError,
                >(opts@),
                Err(e) => parsed_from(arg_views(args@), 0, default_opts()) == Err::<
                    CliOptsView,
                    CliError,
                >(e),
            },
            args@.len() == 0 ==> r is Ok,
    {
        let mut opts = CliOpts::defaults();
        let n: usize = args.len();
        let mut i: usize = 0;
        let ghost views = arg_views(args@);
        while i < n
            invariant
                n == args.len(),
                i <= n,
                views == arg_views(args@),
                parsed_from(views, 0, default_opts()) == parsed_from(views, i as nat, opts@),
            decreases n - i,
        {
            assert(views[i as int] == args@[i as int]@);
            let flag = match read_flag(&args[i]) {
                None => {
                    return Err(CliError::UnknownFlag);
                },
                Some(flag) => flag,
            };
            if n - i < 2 {
                return Err(CliError::MissingValue);
            }
            assert(views[i + 1] == args@[i + 1]@);
            let value = args[i + 1].clone();
            match flag {
                Flag::Source => {
                    opts.source_image_path = value;
                },
                Flag::Processed => {
                    opts.processed_image_path = value;
                },
                Flag::Results => {
                    opts.result_image_path = value;
                },
                Flag::LeftTop => {
                    opts.left_top = value;
                },
                Flag::RightBottom => {
                    opts.right_bottom = value;
                },
                Flag::Tag => {
                    opts.tag_name = value;
                },
            }
            i += 2;
        }
        Ok(opts)
    }

    /// The rectangle that the two coordinate settings stand for. A malformed
    /// coordinate is rejected with its reason, the left-top one first.
    pub fn rectangle(&self) -> (r: Result<Rectangle, CoordError>)
        ensures
            r == rectangle_of(self.left_top@, self.right_bottom@),
    {
        let lt = match string_to_tuples(self.left_top.as_str()) {
            Err(e) => {
                return Err(e);
            },
            Ok(lt) => lt,
        };
        let rb = match string_to_tuples(self.right_bottom.as_str()) {
            Err(e) => {
                return Err(e);
            },
            Ok(rb) => rb,
        };
        Ok(Rectangle::new(lt, rb))
    }
}

} // verus!
