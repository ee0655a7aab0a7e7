use imgcrop::error::CropError;
use imgcrop::worker::{Action, Stage};

fn run(steps: &[bool]) -> (Stage, Vec<Action>) {
    let mut stage = Stage::start();
    let mut actions = Vec::new();
    for &done in steps {
        actions.push(stage.action());
        stage = stage.advance(done);
    }
    (stage, actions)
}

#[test]
fn a_job_writes_twice_and_then_removes() {
    let (stage, actions) = run(&[true, true, true]);
    assert_eq!(actions, vec![Action::WriteCropped, Action::WriteArchive, Action::RemoveSource]);
    assert_eq!(stage, Stage::Finished);
    assert_eq!(stage.action(), Action::Stop);
    assert_eq!(stage.report(), Some(Ok(())));
}

#[test]
fn a_missing_source_is_no_failure() {
    let (stage, _) = run(&[true, true, false]);
    assert_eq!(stage, Stage::FinishedSourceMissing);
    assert_eq!(stage.action(), Action::Stop);
    assert_eq!(stage.report(), Some(Ok(())));
}

#[test]
fn a_failed_write_leaves_the_source() {
    let (stage, actions) = run(&[false]);
    assert_eq!(actions, vec![Action::WriteCropped]);
    assert_eq!(stage, Stage::Abandoned);
    assert_eq!(stage.action(), Action::Stop);
    assert_eq!(stage.report(), Some(Err(CropError::Write)));
    let (stage, actions) = run(&[true, false]);
    assert_eq!(actions, vec![Action::WriteCropped, Action::WriteArchive]);
    assert_eq!(stage, Stage::Abandoned);
    assert_eq!(stage.report(), Some(Err(CropError::Write)));
}

#[test]
fn a_job_that_is_over_stays_over() {
    let (stage, actions) = run(&[true, false, true, true]);
    assert_eq!(stage, Stage::Abandoned);
    assert_eq!(actions[2], Action::Stop);
    assert_eq!(actions[3], Action::Stop);
    let (stage, _) = run(&[true, true, true, false]);
    assert_eq!(stage, Stage::Finished);
}

#[test]
fn a_job_under_way_has_no_report() {
    assert_eq!(Stage::start().report(), None);
    assert_eq!(Stage::start().advance(true).report(), None);
    assert_eq!(Stage::start().advance(true).advance(true).report(), None);
}
