//! What the source argument names, and which entries of a directory are worked on.

use vstd::prelude::*;
use crate::error::CropError;
use crate::geometry::Rectangle;

verus! {

/// What the source path names.
#[derive(Clone, Copy, Debug, PartialEq, Eq, Structural)]
pub enum CheckResult {
    IsFile,
    IsDir,
}

/// The classification that follows from the two questions asked of a path.
pub open spec fn classified(is_file: bool, is_dir: bool) -> Result<CheckResult, CropError> {
    if is_file {
        Ok(CheckResult::IsFile)
    } else if is_dir {
        Ok(CheckResult::IsDir)
    } else {
        Err(CropError::PathNotFound)
    }
}

/// Classifies the source path from whether it names a regular file and
/// whether it names a directory. A path that names neither is not found.
pub fn check_file(is_file: bool, is_dir: bool) -> (r: Result<CheckResult, CropError>)
    ensures
        r == classified(is_file, is_dir),
        r is Err <==> !is_file && !is_dir,
{
    if is_file {
        Ok(CheckResult::IsFile)
    } else if is_dir {
        Ok(CheckResult::IsDir)
    } else {
        Err(CropError::PathNotFound)
    }
}

/// One immediate child of the source directory.
pub struct Entry {
    /// The child's full path.
    pub path: String,
    /// The last component of the path.
    pub file_name: String,
    /// Whether the child is a regular file.
    pub is_file: bool,
}

/// One file's unit of work: crop, archive, delete.
pub struct Job {
    /// The file to read.
    pub source_path: String,
    /// The file's own name, from which the output's name is built.
    pub file_name: String,
    /// The region to cut out.
    pub rectangle: Rectangle,
    /// The directory that receives the cropped image.
    pub output_dir: String,
    /// The tag put into the output's name.
    pub tag: String,
}

/// An entry as contracts see it.
pub struct EntryView {
    pub path: Seq<char>,
    pub file_name: Seq<char>,
    pub is_file: bool,
}

/// A job as contracts see it.
pub struct JobView {
    pub source_path: Seq<char>,
    pub file_name: Seq<char>,
    pub rectangle: Rectangle,
    pub output_dir: Seq<char>,
    pub tag: Seq<char>,
}

impl View for Entry {
    type V = EntryView;

    open spec fn view(&self) -> EntryView {
        EntryView { path: self.path@, file_name: self.file_name@, is_file: self.is_file }
    }
}

impl View for Job {
    type V = JobView;

    open spec fn view(&self) -> JobView {
        JobView {
            source_path: self.source_path@,
            file_name: self.file_name@,
            rectangle: self.rectangle,
            output_dir: self.output_dir@,
            tag: self.tag@,
        }
    }
}

/// The views of a list of entries.
pub open spec fn entry_views(entries: Seq<Entry>) -> Seq<EntryView> {
    entries.map_values(|e: Entry| e@)
}

/// The views of a list of jobs.
pub open spec fn job_views(jobs: Seq<Job>) -> Seq<JobView> {
    jobs.map_values(|j: Job| j@)
}

/// The job that one file of the directory gets.
pub open spec fn job_for(
    entry: EntryView,
    rectangle: Rectangle,
    output_dir: Seq<char>,
    tag: Seq<char>,
) -> JobView {
    JobView {
        source_path: entry.path,
        file_name: entry.file_name,
        rectangle,
        output_dir,
        tag,
    }
}

/// The jobs of a directory: one for each regular file, in the order of the
/// listing; whatever is no regular file gets none.
pub open spec fn planned(
    entries: Seq<EntryView>,
    rectangle: Rectangle,
    output_dir: Seq<char>,
    tag: Seq<char>,
) -> Seq<JobView>
    decreases entries.len(),
{
    if entries.len() == 0 {
        Seq::empty()
    } else {
        let before = planned(entries.drop_last(), rectangle, output_dir, tag);
        if entries.last().is_file {
            before.push(job_for(entries.last(), rectangle, output_dir, tag))
        } else {
            before
        }
    }
}

/// The number of regular files among the entries.
pub open spec fn file_count(entries: Seq<EntryView>) -> nat
    decreases entries.len(),
{
    if entries.len() == 0 {
        0
    } else {
        file_count(entries.drop_last()) + if entries.last().is_file {
            1nat
        } else {
            0nat
        }
    }
}

/// A directory gets exactly as many jobs as it holds regular files; one
/// without regular files gets none.
pub proof fn lemma_planned_len(
    entries: Seq<EntryView>,
    rectangle: Rectangle,
    output_dir: Seq<char>,
    tag: Seq<char>,
)
    ensures
        planned(entries, rectangle, output_dir, tag).len() == file_count(entries),
        file_count(entries) <= entries.len(),
    decreases entries.len(),
{
    if entries.len() > 0 {
        lemma_planned_len(entries.drop_last(), rectangle, output_dir, tag);
    }
}

/// The outcome of scanning a directory: the jobs of its listing, or the
/// failure of the whole run where it could not be listed.
pub open spec fn scanned(
    listing: Option<Seq<EntryView>>,
    rectangle: Rectangle,
    output_dir: Seq<char>,
    tag: Seq<char>,
) -> Result<Seq<JobView>, CropError> {
    match listing {
        None => Err(CropError::DirectoryRead),
        Some(entries) => Ok(planned(entries, rectangle, output_dir, tag)),
    }
}

/// Makes the jobs of a directory from its listing, `None` standing for a
/// directory that could not be listed: that fails the whole run. A listing,
/// even an empty one, always gives jobs: one per regular file.
pub fn read_directory(
    listing: Option<Vec<Entry>>,
    rectangle: Rectangle,
    output_dir: &String,
    tag: &String,
) -> (r: Result<Vec<Job>, CropError>)
    ensures
        match r {
            Ok(jobs) => listing is Some && scanned(
                Some(entry_views(listing->Some_0@)),
                rectangle,
                output_dir@,
                tag@,
            ) == Ok::<Seq<JobView>, CropError>(job_views(jobs@)) && jobs@.len() == file_count(
                entry_views(listing->Some_0@),
            ),
            Err(e) => listing is None && e == CropError::DirectoryRead,
        },
{
    match listing {
        None => Err(CropError::DirectoryRead),
        Some(entries) => Ok(plan_jobs(&entries, rectangle, output_dir, tag)),
    }
}

/// Makes the jobs for the children of a directory: one per regular file, in
/// the listing's order, each with the same rectangle, output directory and
/// tag. Subdirectories are passed over.
pub fn plan_jobs(
    entries: &Vec<Entry>,
    rectangle: Rectangle,
    output_dir: &String,
    tag: &String,
) -> (jobs: Vec<Job>)
    ensures
        job_views(jobs@) == planned(entry_views(entries@), rectangle, output_dir@, tag@),
        jobs@.len() == file_count(entry_views(entries@)),
{
    let mut jobs: Vec<Job> = Vec::new();
    let mut i: usize = 0;
    let ghost all = entry_views(entries@);
    while i < entries.len()
        invariant
            i <= entries.len(),
            all == entry_views(entries@),
            job_views(jobs@) == planned(all.subrange(0, i as int), rectangle, output_dir@, tag@),
        decreases entries.len() - i,
    {
        let e = &entries[i];
        let ghost before = job_views(jobs@);
        proof {
            assert(all.subrange(0, i + 1).drop_last() =~= all.subrange(0, i as int));
            assert(all.subrange(0, i + 1).last() == e@);
        }
        if e.is_file {
            let job = Job {
                source_path: e.path.clone(),
                file_name: e.file_name.clone(),
                rectangle,
                output_dir: output_dir.clone(),
                tag: tag.clone(),
            };
            jobs.push(job);
            assert(job_views(jobs@) =~= before.push(job_for(e@, rectangle, output_dir@, tag@)));
        }
        i += 1;
    }
    proof {
        assert(all.subrange(0, i as int) =~= all);
        lemma_planned_len(all, rectangle, output_dir@, tag@);
        assert(job_views(jobs@).len() == jobs@.len());
    }
    jobs
}

} // verus!
