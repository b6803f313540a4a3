//! One reportable incident.

use vstd::prelude::*;
use crate::appinfo::AppInfo;
use crate::deviceinfo::DeviceInfo;
use crate::error::Severity;
use crate::exception::Exception;

verus! {

/// The revision of the payload format that events are written in.
pub const PAYLOAD_VERSION: u32 = 4;

pub struct Event<'a> {
    pub payload_version: u32,
    pub exceptions: &'a [Exception<'a>],
    pub severity: Option<&'a Severity>,
    pub context: Option<&'a str>,
    pub grouping_hash: Option<&'a str>,
    pub device: &'a DeviceInfo,
    pub app: &'a Option<AppInfo>,
}

impl<'a> Event<'a> {
    pub fn new(
        exceptions: &'a [Exception<'a>],
        severity: Option<&'a Severity>,
        context: Option<&'a str>,
        grouping_hash: Option<&'a str>,
        device: &'a DeviceInfo,
        app: &'a Option<AppInfo>,
    ) -> (r: Event<'a>)
        ensures
            r.payload_version == PAYLOAD_VERSION,
            r.exceptions == exceptions,
            r.severity == severity,
            r.context == context,
            r.grouping_hash == grouping_hash,
            r.device == device,
            r.app == app,
    {
        Event {
            payload_version: PAYLOAD_VERSION,
            exceptions,
            severity,
            context,
            grouping_hash,
            device,
            app,
        }
    }
}

} // verus!
