//! Turning an unhandled fault into a notification.

use vstd::prelude::*;
use crate::bugsnag::{Bugsnag, NotifyBuilder, ReportView};
use crate::error::Severity;
use crate::stacktrace::entries_view;

verus! {

/// The message reported for a fault: its text payload, or `unknown error`
/// when the payload is not text.
pub fn fault_message(payload: Option<&str>) -> (r: &str)
    ensures
        r@ == match payload {
            Some(m) => m@,
            None => "unknown error"@,
        },
{
    match payload {
        Some(m) => m,
        None => "unknown error",
    }
}

/// The notification for a fault with the given message: error class `Panic`,
/// severity error, and the ignore list if one is given.
pub fn handle<'a, 'b>(
    api: &'b Bugsnag,
    message: &'a str,
    methods_to_ignore: Option<&'a [&'a str]>,
) -> (r: NotifyBuilder<'a, 'b>)
    ensures
        r@ == (ReportView {
            client: api@,
            error_class: "Panic"@,
            message: message@,
            sent: false,
            methods_to_ignore: match methods_to_ignore {
                Some(l) => Some(entries_view(l@)),
                None => None,
            },
            context: None,
            severity: Some(Severity::Error),
            grouping_hash: None,
        }),
{
    let notify = api.notify("Panic", message).severity(Severity::Error);
    match methods_to_ignore {
        Some(list) => notify.methods_to_ignore(list),
        None => notify,
    }
}

} // verus!
