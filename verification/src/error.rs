//! Error types of the provisioning chain.

use vstd::prelude::*;
use vstd::string::StringExecFns;

verus! {

/// A filesystem failure annotated with the path it concerns, the operation
/// that was underway, and the underlying cause rendered as text.
#[derive(Debug)]
pub struct BetterIoError {
    pub location: String,
    pub context: String,
    pub error: String,
}

impl BetterIoError {
    pub fn new(location: String, context: String, error: String) -> (e: Self)
        ensures
            e.location == location,
            e.context == context,
            e.error == error,
    {
        BetterIoError { location, context, error }
    }

    /// Renders the failure for display, naming the path and the operation.
    pub fn message(&self) -> (r: String)
        ensures
            r@ == "Failed IO for: "@ + self.location@ + " during "@ + self.context@
                + ". Reason: "@ + self.error@,
    {
        let mut s = String::from_str("Failed IO for: ");
        s.append(self.location.as_str());
        s.append(" during ");
        s.append(self.context.as_str());
        s.append(". Reason: ");
        s.append(self.error.as_str());
        s
    }
}

/// Why fetching or unpacking a runtime archive failed.
#[derive(Debug)]
pub enum ArchiveDownloadError {
    /// A filesystem operation failed.
    Io(BetterIoError),
    /// The transport itself failed; the payload carries the rendered cause.
    Network(String),
    /// A request returned an unsuccessful status, or the size probe reported
    /// no usable size.
    FailedRequest,
}

impl ArchiveDownloadError {
    /// Renders the failure for display.
    pub fn message(&self) -> (r: String)
        ensures
            self matches ArchiveDownloadError::Io(e) ==> r@ == "Failed IO for: "@
                + e.location@ + " during "@ + e.context@ + ". Reason: "@ + e.error@,
            self matches ArchiveDownloadError::Network(c) ==> r@
                == "Network error. Reason: "@ + c@,
            self is FailedRequest ==> r@ == "Network error. Failed to request file"@,
    {
        match self {
            ArchiveDownloadError::Io(e) => e.message(),
            ArchiveDownloadError::Network(cause) => {
                let mut s = String::from_str("Network error. Reason: ");
                s.append(cause.as_str());
                s
            },
            ArchiveDownloadError::FailedRequest => {
                String::from_str("Network error. Failed to request file")
            },
        }
    }
}

/// Why a generation or model-pull request was not served.
#[derive(Debug)]
pub enum AdapterError {
    /// No runtime process is loaded; the request was refused locally without
    /// any network round-trip.
    NotLoaded,
    /// The runtime is loaded but the server or the transport failed; the
    /// payload carries the rendered upstream cause.
    Upstream(String),
}

impl AdapterError {
    /// Renders the failure for display.
    pub fn message(&self) -> (r: String)
        ensures
            self is NotLoaded ==> r@ == "You need to start llm engine first"@,
            self matches AdapterError::Upstream(c) ==> r@ == c@,
    {
        match self {
            AdapterError::NotLoaded => String::from_str("You need to start llm engine first"),
            AdapterError::Upstream(cause) => cause.clone(),
        }
    }
}

} // verus!
