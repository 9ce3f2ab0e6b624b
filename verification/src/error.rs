//! The failures that the bridge reports.

use vstd::prelude::*;

verus! {

/// Why an operation of the bridge did not go through.
///
/// No failure is retried by the bridge itself. The last three come back to
/// the page that made the call; the first three go to the host.
#[derive(Debug)]
pub enum Error {
    /// The engine could not be brought up.
    CreateWebview,
    /// A pending window could not be realized. Nothing of it is left live.
    CreateWindow,
    /// An operation was sent to a window that is gone.
    FailedToSendMessage,
    /// An icon is in a form that the engine cannot decode. The text says
    /// which.
    InvalidIcon(String),
    /// An inbound call carried no salt that is still good. The reason is
    /// never more precise than that.
    InvalidSalt,
    /// An inbound call names a module or a plugin namespace that nobody
    /// handles.
    UnknownApi,
    /// A payload does not have the JSON shape that was asked of it.
    Json,
}

impl Error {
    /// Whether the failure is answered to the page that made the call rather
    /// than to the host.
    pub open spec fn answers_page(self) -> bool {
        self is InvalidSalt || self is UnknownApi || self is Json
    }

    /// Whether the failure is answered to the page that made the call rather
    /// than to the host.
    pub fn is_for_page(&self) -> (yes: bool)
        ensures
            yes == self.answers_page(),
    {
        match self {
            Error::InvalidSalt | Error::UnknownApi | Error::Json => true,
            _ => false,
        }
    }
}

} // verus!
