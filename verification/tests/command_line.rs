use imgcrop::config::{CliError, CliOpts};
use imgcrop::error::CoordError;
use imgcrop::geometry::Rectangle;

fn args(list: &[&str]) -> Vec<String> {
    list.iter().map(|s| s.to_string()).collect()
}

#[test]
fn no_arguments_give_the_defaults() {
    let opts = CliOpts::parse_cli(&args(&[])).unwrap();
    assert_eq!(opts.source_image_path, "./thisimages");
    assert_eq!(opts.processed_image_path, "./processedimages");
    assert_eq!(opts.result_image_path, "./resultsimages");
    assert_eq!(opts.left_top, "0,0");
    assert_eq!(opts.right_bottom, "20,15");
    assert_eq!(opts.tag_name, "center");
    let d = CliOpts::defaults();
    assert_eq!(d.source_image_path, opts.source_image_path);
    assert_eq!(d.tag_name, opts.tag_name);
}

#[test]
fn short_flags_set_their_settings() {
    let opts = CliOpts::parse_cli(&args(&[
        "-s", "in", "-p", "done", "-r", "out", "-t", "1,2", "-b", "3,4", "-w", "left",
    ]))
    .unwrap();
    assert_eq!(opts.source_image_path, "in");
    assert_eq!(opts.processed_image_path, "done");
    assert_eq!(opts.result_image_path, "out");
    assert_eq!(opts.left_top, "1,2");
    assert_eq!(opts.right_bottom, "3,4");
    assert_eq!(opts.tag_name, "left");
}

#[test]
fn long_flags_set_their_settings() {
    let opts = CliOpts::parse_cli(&args(&[
        "--source-image-path", "in",
        "--processed-image-path", "done",
        "--result-image-path", "out",
        "--left-top", "1,2",
        "--right-bottom", "3,4",
        "--tag-name", "left",
    ]))
    .unwrap();
    assert_eq!(opts.source_image_path, "in");
    assert_eq!(opts.processed_image_path, "done");
    assert_eq!(opts.result_image_path, "out");
    assert_eq!(opts.left_top, "1,2");
    assert_eq!(opts.right_bottom, "3,4");
    assert_eq!(opts.tag_name, "left");
}

#[test]
fn unnamed_settings_keep_their_defaults() {
    let opts = CliOpts::parse_cli(&args(&["-w", "top"])).unwrap();
    assert_eq!(opts.tag_name, "top");
    assert_eq!(opts.source_image_path, "./thisimages");
    assert_eq!(opts.right_bottom, "20,15");
}

#[test]
fn a_later_flag_wins() {
    let opts = CliOpts::parse_cli(&args(&["-w", "a", "--tag-name", "b"])).unwrap();
    assert_eq!(opts.tag_name, "b");
}

#[test]
fn a_value_may_look_like_a_flag() {
    let opts = CliOpts::parse_cli(&args(&["-w", "-s"])).unwrap();
    assert_eq!(opts.tag_name, "-s");
    assert_eq!(opts.source_image_path, "./thisimages");
}

#[test]
fn an_unknown_flag_is_rejected() {
    assert_eq!(CliOpts::parse_cli(&args(&["-x", "1"])).err(), Some(CliError::UnknownFlag));
    assert_eq!(CliOpts::parse_cli(&args(&["photo.png"])).err(), Some(CliError::UnknownFlag));
    assert_eq!(CliOpts::parse_cli(&args(&["-w", "a", "b"])).err(), Some(CliError::UnknownFlag));
}

#[test]
fn a_flag_without_value_is_rejected() {
    assert_eq!(CliOpts::parse_cli(&args(&["-s"])).err(), Some(CliError::MissingValue));
    assert_eq!(CliOpts::parse_cli(&args(&["-s", "in", "--tag-name"])).err(), Some(CliError::MissingValue));
}

#[test]
fn the_default_rectangle() {
    let opts = CliOpts::defaults();
    assert_eq!(opts.rectangle(), Ok(Rectangle::new((0, 0), (20, 15))));
}

#[test]
fn a_malformed_corner_is_reported() {
    let opts = CliOpts::parse_cli(&args(&["-t", "1"])).unwrap();
    assert_eq!(opts.rectangle(), Err(CoordError::NotAPair));
    let opts = CliOpts::parse_cli(&args(&["-b", "1,z"])).unwrap();
    assert_eq!(opts.rectangle(), Err(CoordError::BadY));
    let opts = CliOpts::parse_cli(&args(&["-t", "q,1", "-b", "1,z"])).unwrap();
    assert_eq!(opts.rectangle(), Err(CoordError::BadX));
}
