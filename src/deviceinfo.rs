//! Information about the device the application runs on.

use vstd::prelude::*;

verus! {

pub struct DeviceInfo {
    pub os_version: String,
    pub hostname: String,
}

/// The OS version text made from what the OS probe found: `type:release`,
/// with `Unknown` and `u.k.n.o.w.n` standing in for a missing part.
pub open spec fn os_version_text(os_type: Option<Seq<char>>, os_release: Option<Seq<char>>) -> Seq<char> {
    let t = match os_type {
        Some(t) => t,
        None => "Unknown"@,
    };
    let r = match os_release {
        Some(r) => r,
        None => "u.k.n.o.w.n"@,
    };
    t + ":"@ + r
}

/// The hostname made from what the probe found, `UnknownHost` if nothing.
pub open spec fn hostname_text(hostname: Option<Seq<char>>) -> Seq<char> {
    match hostname { Some(h) => h, None => "UnknownHost"@ }
}

impl DeviceInfo {
    pub fn new(version: &str, name: &str) -> (r: DeviceInfo)
        ensures
            r.os_version@ == version@,
            r.hostname@ == name@,
    {
        DeviceInfo { os_version: version.to_owned(), hostname: name.to_owned() }
    }

    /// Builds the device information from what the OS probe returned.
    pub fn from_probe(
        os_type: Option<String>,
        os_release: Option<String>,
        hostname: Option<String>,
    ) -> (r: DeviceInfo)
        ensures
            r.os_version@ == os_version_text(
                match os_type { Some(s) => Some(s@), None => None },
                match os_release { Some(s) => Some(s@), None => None },
            ),
            r.hostname@ == hostname_text(match hostname { Some(s) => Some(s@), None => None }),
    {
        let mut version = match os_type {
            Some(t) => t,
            None => String::from_str("Unknown"),
        };
        version.append(":");
        match &os_release {
            Some(r) => version.append(r.as_str()),
            None => version.append("u.k.n.o.w.n"),
        }
        let host = match hostname {
            Some(h) => h,
            None => String::from_str("UnknownHost"),
        };
        DeviceInfo { os_version: version, hostname: host }
    }

    pub fn set_os_version(&mut self, version: &str)
        ensures
            final(self).os_version@ == version@,
            final(self).hostname == old(self).hostname,
    {
        self.os_version = version.to_owned();
    }

    pub fn set_hostname(&mut self, name: &str)
        ensures
            final(self).hostname@ == name@,
            final(self).os_version == old(self).os_version,
    {
        self.hostname = name.to_owned();
    }
}

} // verus!
