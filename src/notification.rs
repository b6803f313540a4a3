//! The complete payload sent to the endpoint.

use vstd::prelude::*;
use crate::event::Event;

verus! {

pub const NOTIFIER_NAME: &'static str = "Bugsnag Rust";

pub const NOTIFIER_VERSION: &'static str = "0.2.0";

pub const NOTIFIER_URL: &'static str = "https://github.com/superscale/bugsnag-api-rs";

/// Identifies this library to the endpoint.
pub struct Notifier {
    pub name: &'static str,
    pub version: &'static str,
    pub url: &'static str,
}

pub struct Notification<'a> {
    pub api_key: &'a str,
    pub notifier: Notifier,
    pub events: &'a [Event<'a>],
}

impl<'a> Notification<'a> {
    pub fn new(apikey: &'a str, events: &'a [Event<'a>]) -> (r: Notification<'a>)
        ensures
            r.api_key == apikey,
            r.notifier.name == NOTIFIER_NAME,
            r.notifier.version == NOTIFIER_VERSION,
            r.notifier.url == NOTIFIER_URL,
            r.events == events,
    {
        Notification {
            api_key: apikey,
            notifier: Notifier { name: NOTIFIER_NAME, version: NOTIFIER_VERSION, url: NOTIFIER_URL },
            events,
        }
    }
}

} // verus!
