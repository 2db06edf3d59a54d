//! The decision to tell the user interface that a file is to be opened.
//!
//! A raw argument is cleaned and resolved to an absolute path; if that
//! path names a supported file, one notification is due, which carries the
//! path and is to be delivered after a fixed delay, so that the user
//! interface has time to get ready for it. The delivery itself is the
//! caller's part.

use crate::filter::{is_supported_file, supported};
use crate::resolve::{absolute_path, to_absolute_path, Resolution, ResolutionState};
use crate::text::{clean_file_path, cleaned};
use vstd::prelude::*;

verus! {

/// The name of the event that asks the user interface to open a file.
pub const OPEN_FILE_EVENT: &'static str = "open-file";

/// The time to wait before the event is delivered, in milliseconds.
pub const DELIVERY_DELAY_MS: u64 = 800;

/// An event that is due to the user interface.
#[derive(Debug)]
pub struct Notification {
    /// The name of the event.
    pub event: &'static str,
    /// The path that the event carries.
    pub payload: String,
    /// The time to wait before delivery, in milliseconds.
    pub delay_ms: u64,
}

impl Notification {
    /// The notification asks to open `path`, after the fixed delay.
    pub open spec fn opens(self, path: Seq<char>) -> bool {
        &&& self.event@ == OPEN_FILE_EVENT@
        &&& self.payload@ == path
        &&& self.delay_ms == DELIVERY_DELAY_MS
    }
}

/// Begins the dispatch of a raw argument: cleans it, and begins the
/// resolution of the cleaned argument, which cleans it once more, so that
/// two layers of quotes go where white space shields neither.
pub fn begin_dispatch(file_path: &str) -> (r: Resolution)
    ensures
        r@ == ResolutionState::start(
            cleaned(cleaned(file_path@)),
            absolute_path(cleaned(cleaned(file_path@))),
        ),
{
    let cleaned_path = clean_file_path(file_path);
    to_absolute_path(cleaned_path.as_str())
}

/// Decides what is due for a resolved path: one notification that asks to
/// open it if it names a supported file, and nothing otherwise.
pub fn notification_for(resolved: String) -> (r: Option<Notification>)
    ensures
        match r {
            Some(notification) => supported(resolved@) && notification.opens(resolved@),
            None => !supported(resolved@),
        },
{
    if is_supported_file(resolved.as_str()) {
        Some(Notification { event: OPEN_FILE_EVENT, payload: resolved, delay_ms: DELIVERY_DELAY_MS })
    } else {
        None
    }
}

} // verus!
