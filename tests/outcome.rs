use cosmic_screenshot::error::{Error, SaveStep};
use cosmic_screenshot::outcome::Completion;

#[test]
fn cancelled_is_not_a_failure() {
    let e = Error::PortalCancelled;
    assert!(e.cancelled());
    let c = Completion::from_result(Err(e));
    assert!(matches!(c, Completion::Cancelled));
    assert_eq!(c.summary(), "Screenshot cancelled");
    assert_eq!(c.body(), "");
}

#[test]
fn portal_failure_is_reported_as_failure() {
    let e = Error::Portal("no portal".to_string());
    assert!(!e.cancelled());
    let c = Completion::from_result(Err(e));
    assert!(matches!(c, Completion::Failed(_)));
    assert_eq!(c.summary(), "Screenshot failed");
    assert_eq!(c.body(), "Screenshot portal failed: no portal");
}

#[test]
fn capture_reports_the_path() {
    let c = Completion::from_result(Ok("/pics/a.png".to_string()));
    assert_eq!(c.summary(), "Screenshot captured");
    assert_eq!(c.body(), "/pics/a.png");
}

#[test]
fn user_facing_messages() {
    assert_eq!(
        Error::MissingSaveDirectory(None).to_user_facing(),
        "No pictures directory to save the screenshot to"
    );
    assert_eq!(
        Error::MissingSaveDirectory(Some("/x".to_string())).to_user_facing(),
        "Cannot save the screenshot to /x"
    );
    assert_eq!(
        Error::UnsupportedScheme("https".to_string()).to_user_facing(),
        "Unsupported screenshot location scheme: https"
    );
    assert_eq!(
        Error::SaveScreenshot { step: SaveStep::Copy, error: "disk full".to_string() }.to_user_facing(),
        "Failed to save the screenshot (copying screenshot): disk full"
    );
    assert_eq!(
        Error::Notify("no bus".to_string()).to_user_facing(),
        "Failed to send a notification: no bus"
    );
    assert_eq!(Error::PortalCancelled.to_user_facing(), "Screenshot cancelled");
}

#[test]
fn step_contexts() {
    assert_eq!(SaveStep::MetadataDestination.context(), "metadata for screenshot destination");
    assert_eq!(SaveStep::MetadataSource.context(), "metadata for temporary path");
    assert_eq!(SaveStep::Copy.context(), "copying screenshot");
    assert_eq!(SaveStep::RemoveTemp.context(), "removing temporary screenshot");
    assert_eq!(SaveStep::Rename.context(), "moving screenshot");
}
