use vstd::prelude::*;
use vstd::string::StringExecFns;

verus! {

/// The part of saving a screenshot that failed.
#[derive(Clone, Copy, Debug, PartialEq, Eq, Structural)]
pub enum SaveStep {
    MetadataDestination,
    MetadataSource,
    Copy,
    RemoveTemp,
    Rename,
}

/// The short label that names a failed step.
pub open spec fn context_text(step: SaveStep) -> Seq<char> {
    match step {
        SaveStep::MetadataDestination => "metadata for screenshot destination"@,
        SaveStep::MetadataSource => "metadata for temporary path"@,
        SaveStep::Copy => "copying screenshot"@,
        SaveStep::RemoveTemp => "removing temporary screenshot"@,
        SaveStep::Rename => "moving screenshot"@,
    }
}

impl SaveStep {
    pub fn context(&self) -> (r: &'static str)
        ensures
            r@ == context_text(*self),
    {
        match self {
            SaveStep::MetadataDestination => "metadata for screenshot destination",
            SaveStep::MetadataSource => "metadata for temporary path",
            SaveStep::Copy => "copying screenshot",
            SaveStep::RemoveTemp => "removing temporary screenshot",
            SaveStep::Rename => "moving screenshot",
        }
    }
}

/// Everything that can go wrong while taking a screenshot.
#[derive(Debug)]
pub enum Error {
    /// No usable save directory: the one given (if any) is not a directory
    /// and there is no pictures directory either.
    MissingSaveDirectory(Option<String>),
    /// The portal handed back a URI whose scheme is not `file`.
    UnsupportedScheme(String),
    /// A filesystem step failed; `error` describes the underlying I/O error.
    SaveScreenshot { step: SaveStep, error: String },
    /// The notification could not be delivered.
    Notify(String),
    /// The user dismissed the screenshot picker.
    PortalCancelled,
    /// The portal request failed for another reason.
    Portal(String),
}

/// The message shown to the user for an error.
pub open spec fn user_facing(e: Error) -> Seq<char> {
    match e {
        Error::MissingSaveDirectory(None) => "No pictures directory to save the screenshot to"@,
        Error::MissingSaveDirectory(Some(dir)) => "Cannot save the screenshot to "@ + dir@,
        Error::UnsupportedScheme(scheme) => "Unsupported screenshot location scheme: "@ + scheme@,
        Error::SaveScreenshot { step, error } => "Failed to save the screenshot ("@ + context_text(
            step,
        ) + "): "@ + error@,
        Error::Notify(msg) => "Failed to send a notification: "@ + msg@,
        Error::PortalCancelled => "Screenshot cancelled"@,
        Error::Portal(msg) => "Screenshot portal failed: "@ + msg@,
    }
}

impl Error {
    /// Whether this is the user cancelling the request rather than a failure.
    pub fn cancelled(&self) -> (r: bool)
        ensures
            r == (*self is PortalCancelled),
    {
        match self {
            Error::PortalCancelled => true,
            _ => false,
        }
    }

    pub fn to_user_facing(&self) -> (r: String)
        ensures
            r@ == user_facing(*self),
    {
        match self {
            Error::MissingSaveDirectory(None) => String::from_str(
                "No pictures directory to save the screenshot to",
            ),
            Error::MissingSaveDirectory(Some(dir)) => String::from_str(
                "Cannot save the screenshot to ",
            ).concat(dir.as_str()),
            Error::UnsupportedScheme(scheme) => String::from_str(
                "Unsupported screenshot location scheme: ",
            ).concat(scheme.as_str()),
            Error::SaveScreenshot { step, error } => String::from_str(
                "Failed to save the screenshot (",
            ).concat(step.context()).concat("): ").concat(error.as_str()),
            Error::Notify(msg) => String::from_str("Failed to send a notification: ").concat(
                msg.as_str(),
            ),
            Error::PortalCancelled => String::from_str("Screenshot cancelled"),
            Error::Portal(msg) => String::from_str("Screenshot portal failed: ").concat(
                msg.as_str(),
            ),
        }
    }
}

} // verus!
