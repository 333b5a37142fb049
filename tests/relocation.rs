use cosmic_screenshot::error::{Error, SaveStep};
use cosmic_screenshot::relocate::{screenshot_source, Event, Relocation, Stage, Step};
use cosmic_screenshot::stamp::Timestamp;

const NOW: Timestamp = Timestamp { year: 2024, month: 3, day: 5, hour: 14, minute: 7, second: 9 };

fn started() -> Relocation {
    let r = Relocation::begin(Some("/pics".to_string()), "file", "/tmp/shot.png", &NOW);
    assert!(matches!(r.stage, Stage::DestinationDevice));
    r
}

fn failed_at(r: Relocation) -> SaveStep {
    match r.into_result() {
        Some(Err(Error::SaveScreenshot { step, error })) => {
            assert_eq!(error, "boom");
            step
        }
        other => panic!("unexpected {other:?}"),
    }
}

#[test]
fn file_scheme_is_accepted() {
    assert_eq!(screenshot_source("file", "/tmp/a.png").unwrap(), "/tmp/a.png");
}

#[test]
fn other_scheme_is_unsupported() {
    match screenshot_source("https", "/a.png") {
        Err(Error::UnsupportedScheme(s)) => assert_eq!(s, "https"),
        other => panic!("unexpected {other:?}"),
    }
    assert!(screenshot_source("File", "/a.png").is_err());
}

#[test]
fn unsupported_scheme_asks_for_nothing() {
    let mut r = Relocation::begin(Some("/pics".to_string()), "http", "/tmp/shot.png", &NOW);
    assert!(matches!(r.step(), Step::Finish));
    r.advance(Event::Completed);
    r.advance(Event::Device(3));
    assert!(matches!(r.step(), Step::Finish));
    match r.into_result() {
        Some(Err(Error::UnsupportedScheme(s))) => assert_eq!(s, "http"),
        other => panic!("unexpected {other:?}"),
    }
}

#[test]
fn without_save_dir_the_portal_path_is_kept() {
    let r = Relocation::begin(None, "file", "/home/u/Pictures/shot.png", &NOW);
    assert!(matches!(r.step(), Step::Finish));
    assert_eq!(r.into_result().unwrap().unwrap(), "/home/u/Pictures/shot.png");
}

#[test]
fn target_is_a_timestamped_name_in_the_directory() {
    let r = started();
    assert_eq!(r.target, "/pics/Screenshot_2024-03-05_14-07-09.png");
    match r.step() {
        Step::ReadDevice(p) => assert_eq!(p, "/pics"),
        other => panic!("unexpected {other:?}"),
    }
}

#[test]
fn same_device_renames() {
    let mut r = started();
    r.advance(Event::Device(7));
    match r.step() {
        Step::ReadDevice(p) => assert_eq!(p, "/tmp/shot.png"),
        other => panic!("unexpected {other:?}"),
    }
    r.advance(Event::Device(7));
    let target = r.target.clone();
    match r.step() {
        Step::Rename { from, to } => {
            assert_eq!(from, "/tmp/shot.png");
            assert_eq!(to, target);
        }
        other => panic!("unexpected {other:?}"),
    }
    r.advance(Event::Completed);
    assert!(matches!(r.step(), Step::Finish));
    assert_eq!(r.into_result().unwrap().unwrap(), target);
}

#[test]
fn other_device_copies_then_removes() {
    let mut r = started();
    r.advance(Event::Device(1));
    r.advance(Event::Device(2));
    let target = r.target.clone();
    match r.step() {
        Step::Copy { from, to } => {
            assert_eq!(from, "/tmp/shot.png");
            assert_eq!(to, target);
        }
        other => panic!("unexpected {other:?}"),
    }
    r.advance(Event::Completed);
    match r.step() {
        Step::Remove(p) => assert_eq!(p, "/tmp/shot.png"),
        other => panic!("unexpected {other:?}"),
    }
    r.advance(Event::Completed);
    assert_eq!(r.into_result().unwrap().unwrap(), target);
}

#[test]
fn failures_name_their_step() {
    let mut r = started();
    r.advance(Event::Failed("boom".to_string()));
    assert_eq!(failed_at(r), SaveStep::MetadataDestination);

    let mut r = started();
    r.advance(Event::Device(1));
    r.advance(Event::Failed("boom".to_string()));
    assert_eq!(failed_at(r), SaveStep::MetadataSource);

    let mut r = started();
    r.advance(Event::Device(1));
    r.advance(Event::Device(2));
    r.advance(Event::Failed("boom".to_string()));
    assert_eq!(failed_at(r), SaveStep::Copy);

    let mut r = started();
    r.advance(Event::Device(1));
    r.advance(Event::Device(2));
    r.advance(Event::Completed);
    r.advance(Event::Failed("boom".to_string()));
    assert_eq!(failed_at(r), SaveStep::RemoveTemp);

    let mut r = started();
    r.advance(Event::Device(1));
    r.advance(Event::Device(1));
    r.advance(Event::Failed("boom".to_string()));
    assert_eq!(failed_at(r), SaveStep::Rename);
}

#[test]
fn unrelated_event_is_ignored() {
    let mut r = started();
    r.advance(Event::Completed);
    assert!(matches!(r.stage, Stage::DestinationDevice));
    r.advance(Event::Device(1));
    r.advance(Event::Device(2));
    r.advance(Event::Device(3));
    assert!(matches!(r.stage, Stage::Copying));
    assert!(r.into_result().is_none());
}

#[test]
fn directory_ending_in_separator_gets_no_second_one() {
    let r = Relocation::begin(Some("/pics/".to_string()), "file", "/tmp/shot.png", &NOW);
    assert_eq!(r.target, "/pics/Screenshot_2024-03-05_14-07-09.png");
}

#[test]
fn empty_directory_gives_the_bare_name() {
    let r = Relocation::begin(Some(String::new()), "file", "/tmp/shot.png", &NOW);
    assert_eq!(r.target, "Screenshot_2024-03-05_14-07-09.png");
}
