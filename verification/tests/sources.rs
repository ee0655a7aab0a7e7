use imgcrop::error::CropError;
use imgcrop::geometry::Rectangle;
use imgcrop::source::{check_file, plan_jobs, read_directory, CheckResult, Entry};

fn entry(name: &str, is_file: bool) -> Entry {
    Entry { path: format!("in/{}", name), file_name: name.to_string(), is_file }
}

#[test]
fn a_file_is_a_file() {
    assert_eq!(check_file(true, false), Ok(CheckResult::IsFile));
    assert_eq!(check_file(true, true), Ok(CheckResult::IsFile));
}

#[test]
fn a_directory_is_a_directory() {
    assert_eq!(check_file(false, true), Ok(CheckResult::IsDir));
}

#[test]
fn neither_is_not_found() {
    assert_eq!(check_file(false, false), Err(CropError::PathNotFound));
}

#[test]
fn one_job_per_regular_file_in_order() {
    let entries = vec![
        entry("a.png", true),
        entry("sub", false),
        entry("b.png", true),
        entry("c.jpg", true),
    ];
    let rect = Rectangle::new((1, 2), (3, 4));
    let planned = plan_jobs(&entries, rect, &"out".to_string(), &"center".to_string());
    assert_eq!(planned.len(), 3);
    let jobs = read_directory(Some(entries), rect, &"out".to_string(), &"center".to_string()).unwrap();
    assert_eq!(jobs.len(), 3);
    let names: Vec<&str> = jobs.iter().map(|j| j.file_name.as_str()).collect();
    assert_eq!(names, vec!["a.png", "b.png", "c.jpg"]);
    for j in &jobs {
        assert_eq!(j.source_path, format!("in/{}", j.file_name));
        assert_eq!(j.rectangle, rect);
        assert_eq!(j.output_dir, "out");
        assert_eq!(j.tag, "center");
    }
}

#[test]
fn an_emptied_directory_gives_no_job() {
    let rect = Rectangle::new((0, 0), (20, 15));
    let jobs = read_directory(Some(vec![]), rect, &"out".to_string(), &"center".to_string()).unwrap();
    assert!(jobs.is_empty());
    let only_dirs = vec![entry("x", false), entry("y", false)];
    let jobs = read_directory(Some(only_dirs), rect, &"out".to_string(), &"center".to_string()).unwrap();
    assert!(jobs.is_empty());
}

#[test]
fn an_unreadable_directory_fails_the_run() {
    let rect = Rectangle::new((0, 0), (20, 15));
    let r = read_directory(None, rect, &"out".to_string(), &"center".to_string());
    assert_eq!(r.err(), Some(CropError::DirectoryRead));
}
