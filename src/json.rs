//! The JSON wire format of notifications.
//!
//! The layout of every object is written here; only the escaping of string
//! values is left to serde_json. Optional members that are unset are omitted,
//! never written as `null`.

use vstd::prelude::*;
use vstd::string::*;
use serde_json::Error as EncodeError;
use crate::appinfo::AppInfo;
use crate::deviceinfo::DeviceInfo;
use crate::error::{Error, Severity};
use crate::event::Event;
use crate::exception::Exception;
use crate::notification::{Notification, Notifier};
use crate::stacktrace::Frame;

verus! {

pub open spec fn hex_digit(d: u32) -> char {
    if d == 0 { '0' } else if d == 1 { '1' } else if d == 2 { '2' } else if d == 3 { '3' }
    else if d == 4 { '4' } else if d == 5 { '5' } else if d == 6 { '6' } else if d == 7 { '7' }
    else if d == 8 { '8' } else if d == 9 { '9' } else if d == 10 { 'a' } else if d == 11 { 'b' }
    else if d == 12 { 'c' } else if d == 13 { 'd' } else if d == 14 { 'e' } else { 'f' }
}

/// How one character is written inside a JSON string: quote and backslash
/// behind a backslash, the control characters that have a short escape with
/// it, the other control characters as `\u00XX` in lower-case hex, every
/// other character as it is.
pub open spec fn escape_char(c: char) -> Seq<char> {
    if c == '"' {
        seq!['\\', '"']
    } else if c == '\\' {
        seq!['\\', '\\']
    } else if c == '\x08' {
        seq!['\\', 'b']
    } else if c == '\t' {
        seq!['\\', 't']
    } else if c == '\n' {
        seq!['\\', 'n']
    } else if c == '\x0C' {
        seq!['\\', 'f']
    } else if c == '\r' {
        seq!['\\', 'r']
    } else if (c as u32) < 0x20 {
        seq!['\\', 'u', '0', '0', hex_digit((c as u32) / 16), hex_digit((c as u32) % 16)]
    } else {
        seq![c]
    }
}

/// The characters of `s`, each written as `escape_char` says.
pub open spec fn escaped(s: Seq<char>) -> Seq<char>
    decreases s.len(),
{
    if s.len() == 0 {
        Seq::empty()
    } else {
        escaped(s.drop_last()) + escape_char(s.last())
    }
}

/// The JSON string literal for a text: the escaped text between double quotes.
#[verifier::opaque]
pub open spec fn json_string(s: Seq<char>) -> Seq<char> {
    seq!['"'] + escaped(s) + seq!['"']
}

#[verifier::external_type_specification]
#[verifier::external_body]
pub struct ExEncodeError(EncodeError);

/// Relies on serde_json::to_string applied to a `str`: it writes the text
/// between quotes, escaped by its table of escapes, into a `Vec`, which cannot
/// fail, and returns it.
#[verifier::external_body]
fn quote(s: &str) -> (r: Result<String, EncodeError>)
    ensures
        r is Ok,
        r matches Ok(j) ==> j@ == json_string(s@),
{
    serde_json::to_string(s)
}

pub open spec fn digit_text(d: nat) -> Seq<char> {
    if d == 0 {
        "0"@
    } else if d == 1 {
        "1"@
    } else if d == 2 {
        "2"@
    } else if d == 3 {
        "3"@
    } else if d == 4 {
        "4"@
    } else if d == 5 {
        "5"@
    } else if d == 6 {
        "6"@
    } else if d == 7 {
        "7"@
    } else if d == 8 {
        "8"@
    } else {
        "9"@
    }
}

/// The decimal notation of `n`, without leading zeros.
pub open spec fn decimal(n: nat) -> Seq<char>
    decreases n,
{
    if n < 10 {
        digit_text(n)
    } else {
        decimal(n / 10) + digit_text(n % 10)
    }
}

pub open spec fn bool_text(b: bool) -> Seq<char> {
    if b {
        "true"@
    } else {
        "false"@
    }
}

/// The texts separated by commas.
pub open spec fn join(items: Seq<Seq<char>>) -> Seq<char>
    decreases items.len(),
{
    if items.len() == 0 {
        Seq::empty()
    } else if items.len() == 1 {
        items[0]
    } else {
        join(items.drop_last()) + ","@ + items.last()
    }
}

pub open spec fn list_text(items: Seq<Seq<char>>) -> Seq<char> {
    "["@ + join(items) + "]"@
}

/// `key` (which carries its leading comma) and the value for a set member,
/// nothing for an unset one.
pub open spec fn opt_member(key: Seq<char>, value: Option<Seq<char>>) -> Seq<char> {
    match value {
        Some(v) => key + v,
        None => Seq::empty(),
    }
}

#[verifier::opaque]
pub open spec fn frame_json(f: Frame) -> Seq<char> {
    "{\"file\":"@ + json_string(f.file@) + ",\"lineNumber\":"@ + decimal(f.line_number as nat)
        + ",\"method\":"@ + json_string(f.method@) + ",\"inProject\":"@ + bool_text(f.in_project)
        + "}"@
}

pub open spec fn frames_json(fs: Seq<Frame>) -> Seq<char> {
    list_text(fs.map_values(|f: Frame| frame_json(f)))
}

#[verifier::opaque]
pub open spec fn exception_text(error_class: Seq<char>, message: Seq<char>, frames: Seq<Frame>) -> Seq<char> {
    "{\"errorClass\":"@ + json_string(error_class) + ",\"message\":"@ + json_string(message)
        + ",\"stacktrace\":"@ + frames_json(frames) + "}"@
}

pub open spec fn exception_json(e: Exception) -> Seq<char> {
    exception_text(e.error_class@, e.message@, e.stacktrace@)
}

pub open spec fn exceptions_json(es: Seq<Exception>) -> Seq<char> {
    list_text(es.map_values(|e: Exception| exception_json(e)))
}

pub open spec fn severity_json(s: Severity) -> Seq<char> {
    match s {
        Severity::Error => "\"error\""@,
        Severity::Warning => "\"warning\""@,
        Severity::Info => "\"info\""@,
    }
}

#[verifier::opaque]
pub open spec fn device_json(d: DeviceInfo) -> Seq<char> {
    "{\"osVersion\":"@ + json_string(d.os_version@) + ",\"hostname\":"@ + json_string(d.hostname@)
        + "}"@
}

/// `"key":value` as the only member of a list, or no member when unset.
pub open spec fn app_member(key: Seq<char>, value: Option<String>) -> Seq<Seq<char>> {
    match value {
        Some(v) => seq![key + json_string(v@)],
        None => Seq::empty(),
    }
}

pub open spec fn app_members(a: AppInfo) -> Seq<Seq<char>> {
    app_member("\"version\":"@, a.version) + app_member("\"releaseStage\":"@, a.release_stage)
        + app_member("\"type\":"@, a.atype)
}

#[verifier::opaque]
pub open spec fn app_json(a: AppInfo) -> Seq<char> {
    "{"@ + join(app_members(a)) + "}"@
}

pub open spec fn severity_member(severity: Option<Severity>) -> Seq<char> {
    opt_member(
        ",\"severity\":"@,
        match severity {
            Some(s) => Some(severity_json(s)),
            None => None,
        },
    )
}

pub open spec fn text_member(key: Seq<char>, value: Option<Seq<char>>) -> Seq<char> {
    opt_member(
        key,
        match value {
            Some(c) => Some(json_string(c)),
            None => None,
        },
    )
}

pub open spec fn app_info_member(app: Option<AppInfo>) -> Seq<char> {
    opt_member(
        ",\"app\":"@,
        match app {
            Some(a) => Some(app_json(a)),
            None => None,
        },
    )
}

/// An event whose exception list is written as `exceptions`; each unset
/// optional member is left out.
#[verifier::opaque]
pub open spec fn event_text(
    payload_version: u32,
    exceptions: Seq<char>,
    severity: Option<Severity>,
    context: Option<Seq<char>>,
    grouping_hash: Option<Seq<char>>,
    device: DeviceInfo,
    app: Option<AppInfo>,
) -> Seq<char> {
    "{\"payloadVersion\":"@ + decimal(payload_version as nat) + ",\"exceptions\":"@ + exceptions
        + severity_member(severity) + text_member(",\"context\":"@, context) + text_member(
        ",\"groupingHash\":"@,
        grouping_hash,
    ) + ",\"device\":"@ + device_json(device) + app_info_member(app) + "}"@
}

/// An event with no severity, context, grouping hash or app information is
/// written without those members: neither the keys nor `null` appear.
pub proof fn lemma_unset_members_omitted(payload_version: u32, exceptions: Seq<char>, device: DeviceInfo)
    ensures
        event_text(payload_version, exceptions, None, None, None, device, None) == "{\"payloadVersion\":"@
            + decimal(payload_version as nat) + ",\"exceptions\":"@ + exceptions + ",\"device\":"@
            + device_json(device) + "}"@,
{
    reveal(event_text);
    let e: Seq<char> = Seq::empty();
    let a = "{\"payloadVersion\":"@ + decimal(payload_version as nat) + ",\"exceptions\":"@ + exceptions;
    assert(a + e + e + e =~= a);
    assert(",\"device\":"@ + device_json(device) + e =~= ",\"device\":"@ + device_json(device));
    assert(a + e + e + e + ",\"device\":"@ + device_json(device) + e + "}"@ =~= a + ",\"device\":"@ + device_json(device) + "}"@);
}

/// App information with no member set is written as an empty object.
pub proof fn lemma_empty_app_info(a: AppInfo)
    requires
        a.version is None,
        a.release_stage is None,
        a.atype is None,
    ensures
        app_json(a) == "{"@ + "}"@,
{
    reveal(app_json);
    assert(app_members(a) =~= Seq::<Seq<char>>::empty());
    assert("{"@ + Seq::<char>::empty() =~= "{"@);
}

pub open spec fn opt_severity(s: Option<&Severity>) -> Option<Severity> {
    match s {
        Some(v) => Some(*v),
        None => None,
    }
}

pub open spec fn opt_text(s: Option<&str>) -> Option<Seq<char>> {
    match s {
        Some(v) => Some(v@),
        None => None,
    }
}

pub open spec fn event_json(e: Event) -> Seq<char> {
    event_text(
        e.payload_version,
        exceptions_json(e.exceptions@),
        opt_severity(e.severity),
        opt_text(e.context),
        opt_text(e.grouping_hash),
        *e.device,
        *e.app,
    )
}

pub open spec fn events_json(es: Seq<Event>) -> Seq<char> {
    list_text(es.map_values(|e: Event| event_json(e)))
}

pub open spec fn notifier_json(n: Notifier) -> Seq<char> {
    "{\"name\":"@ + json_string(n.name@) + ",\"version\":"@ + json_string(n.version@) + ",\"url\":"@
        + json_string(n.url@) + "}"@
}

/// A notification whose event list is written as `events`.
#[verifier::opaque]
pub open spec fn notification_text(api_key: Seq<char>, notifier: Notifier, events: Seq<char>) -> Seq<char> {
    "{\"apiKey\":"@ + json_string(api_key) + ",\"notifier\":"@ + notifier_json(notifier)
        + ",\"events\":"@ + events + "}"@
}

pub open spec fn notification_json(n: Notification) -> Seq<char> {
    notification_text(n.api_key@, n.notifier, events_json(n.events@))
}

/// A writer of `text` succeeded and appended exactly `text`.
pub open spec fn wrote(r: Result<(), Error>, before: Seq<char>, after: Seq<char>, text: Seq<char>) -> bool {
    r is Ok && after == before + text
}

fn push_quoted(out: &mut String, s: &str) -> (r: Result<(), Error>)
    ensures
        wrote(r, old(out)@, final(out)@, json_string(s@)),
{
    match quote(s) {
        Ok(j) => {
            out.append(j.as_str());
            Ok(())
        },
        Err(_) => Err(Error::JsonConversionFailed),
    }
}

fn digit(d: u32) -> (r: &'static str)
    requires
        d < 10,
    ensures
        r@ == digit_text(d as nat),
{
    if d == 0 {
        "0"
    } else if d == 1 {
        "1"
    } else if d == 2 {
        "2"
    } else if d == 3 {
        "3"
    } else if d == 4 {
        "4"
    } else if d == 5 {
        "5"
    } else if d == 6 {
        "6"
    } else if d == 7 {
        "7"
    } else if d == 8 {
        "8"
    } else {
        "9"
    }
}

fn push_decimal(out: &mut String, n: u32)
    ensures
        final(out)@ == old(out)@ + decimal(n as nat),
    decreases n,
{
    if n >= 10 {
        push_decimal(out, n / 10);
    }
    out.append(digit(n % 10));
    assert(out@ =~= old(out)@ + decimal(n as nat));
}

fn write_frame(out: &mut String, f: &Frame) -> (r: Result<(), Error>)
    ensures
        wrote(r, old(out)@, final(out)@, frame_json(*f)),
{
    let ghost start = out@;
    out.append("{\"file\":");
    push_quoted(out, f.file.as_str())?;
    out.append(",\"lineNumber\":");
    push_decimal(out, f.line_number);
    out.append(",\"method\":");
    push_quoted(out, f.method.as_str())?;
    out.append(",\"inProject\":");
    out.append(if f.in_project { "true" } else { "false" });
    out.append("}");
    assert(out@ =~= start + frame_json(*f)) by {
        reveal(frame_json);
    }
    Ok(())
}

proof fn lemma_join_push(items: Seq<Seq<char>>, i: int)
    requires
        0 <= i < items.len(),
    ensures
        join(items.take(i + 1)) == if i == 0 {
            items[0]
        } else {
            join(items.take(i)) + ","@ + items[i]
        },
{
    assert(items.take(i + 1).drop_last() =~= items.take(i));
}

fn write_frames(out: &mut String, fs: &[Frame]) -> (r: Result<(), Error>)
    ensures
        wrote(r, old(out)@, final(out)@, frames_json(fs@)),
{
    let ghost start = out@;
    let ghost texts = fs@.map_values(|f: Frame| frame_json(f));
    out.append("[");
    let mut i: usize = 0;
    while i < fs.len()
        invariant
            texts == fs@.map_values(|f: Frame| frame_json(f)),
            i <= fs@.len(),
            out@ == start + "["@ + join(texts.take(i as int)),
        decreases fs@.len() - i,
    {
        proof {
            lemma_join_push(texts, i as int);
        }
        if i > 0 {
            out.append(",");
        }
        write_frame(out, &fs[i])?;
        assert(out@ =~= start + "["@ + join(texts.take(i + 1)));
        i = i + 1;
    }
    out.append("]");
    assert(texts.take(i as int) =~= texts);
    assert(out@ =~= start + frames_json(fs@));
    Ok(())
}

fn write_exception(out: &mut String, e: &Exception) -> (r: Result<(), Error>)
    ensures
        wrote(r, old(out)@, final(out)@, exception_json(*e)),
{
    let ghost start = out@;
    out.append("{\"errorClass\":");
    push_quoted(out, e.error_class)?;
    out.append(",\"message\":");
    push_quoted(out, e.message)?;
    out.append(",\"stacktrace\":");
    write_frames(out, e.stacktrace)?;
    out.append("}");
    assert(out@ =~= start + exception_json(*e)) by {
        reveal(exception_text);
    }
    Ok(())
}

fn write_exceptions(out: &mut String, es: &[Exception]) -> (r: Result<(), Error>)
    ensures
        wrote(r, old(out)@, final(out)@, exceptions_json(es@)),
{
    let ghost start = out@;
    let ghost texts = es@.map_values(|e: Exception| exception_json(e));
    out.append("[");
    let mut i: usize = 0;
    while i < es.len()
        invariant
            texts == es@.map_values(|e: Exception| exception_json(e)),
            i <= es@.len(),
            out@ == start + "["@ + join(texts.take(i as int)),
        decreases es@.len() - i,
    {
        proof {
            lemma_join_push(texts, i as int);
        }
        if i > 0 {
            out.append(",");
        }
        write_exception(out, &es[i])?;
        assert(out@ =~= start + "["@ + join(texts.take(i + 1)));
        i = i + 1;
    }
    out.append("]");
    assert(texts.take(i as int) =~= texts);
    assert(out@ =~= start + exceptions_json(es@));
    Ok(())
}

fn severity_text(s: Severity) -> (r: &'static str)
    ensures
        r@ == severity_json(s),
{
    match s {
        Severity::Error => "\"error\"",
        Severity::Warning => "\"warning\"",
        Severity::Info => "\"info\"",
    }
}

fn write_device(out: &mut String, d: &DeviceInfo) -> (r: Result<(), Error>)
    ensures
        wrote(r, old(out)@, final(out)@, device_json(*d)),
{
    let ghost start = out@;
    out.append("{\"osVersion\":");
    push_quoted(out, d.os_version.as_str())?;
    out.append(",\"hostname\":");
    push_quoted(out, d.hostname.as_str())?;
    out.append("}");
    assert(out@ =~= start + device_json(*d)) by {
        reveal(device_json);
    }
    Ok(())
}

/// Appends the member `"key":value` of an app object when the value is set,
/// after a comma unless it is the first; `ms` are the members written so far.
fn write_app_member(
    out: &mut String,
    key: &str,
    value: &Option<String>,
    count: usize,
    Ghost(prefix): Ghost<Seq<char>>,
    Ghost(ms): Ghost<Seq<Seq<char>>>,
) -> (r: Result<usize, Error>)
    requires
        count == ms.len(),
        count < 3,
        old(out)@ == prefix + join(ms),
    ensures
        r matches Ok(n) && n == (ms + app_member(key@, *value)).len() && final(out)@ == prefix
            + join(ms + app_member(key@, *value)),
{
    match value {
        Some(v) => {
            let ghost t = key@ + json_string(v@);
            if count > 0 {
                out.append(",");
            }
            out.append(key);
            push_quoted(out, v.as_str())?;
            assert(ms + app_member(key@, *value) =~= ms.push(t));
            assert(ms.push(t).drop_last() =~= ms);
            assert(out@ =~= prefix + join(ms.push(t)));
            Ok(count + 1)
        },
        None => {
            assert(ms + app_member(key@, *value) =~= ms);
            Ok(count)
        },
    }
}

fn write_app(out: &mut String, a: &AppInfo) -> (r: Result<(), Error>)
    ensures
        wrote(r, old(out)@, final(out)@, app_json(*a)),
{
    let ghost start = out@;
    out.append("{");
    let ghost prefix = out@;
    let ghost m0: Seq<Seq<char>> = Seq::empty();
    let ghost m1 = m0 + app_member("\"version\":"@, a.version);
    let ghost m2 = m1 + app_member("\"releaseStage\":"@, a.release_stage);
    let ghost m3 = m2 + app_member("\"type\":"@, a.atype);
    assert(out@ =~= prefix + join(m0));
    let n = write_app_member(out, "\"version\":", &a.version, 0, Ghost(prefix), Ghost(m0))?;
    let n = write_app_member(out, "\"releaseStage\":", &a.release_stage, n, Ghost(prefix), Ghost(m1))?;
    let _ = write_app_member(out, "\"type\":", &a.atype, n, Ghost(prefix), Ghost(m2))?;
    out.append("}");
    assert(m3 =~= app_members(*a));
    assert(out@ =~= start + app_json(*a)) by {
        reveal(app_json);
    }
    Ok(())
}

fn write_event(out: &mut String, e: &Event) -> (r: Result<(), Error>)
    ensures
        wrote(r, old(out)@, final(out)@, event_json(*e)),
{
    let mut buf = String::from_str("{\"payloadVersion\":");
    push_decimal(&mut buf, e.payload_version);
    buf.append(",\"exceptions\":");
    write_exceptions(&mut buf, e.exceptions)?;
    let ghost s1 = buf@;
    match e.severity {
        Some(s) => {
            buf.append(",\"severity\":");
            buf.append(severity_text(*s));
        },
        None => {},
    }
    assert(buf@ =~= s1 + severity_member(opt_severity(e.severity)));
    let ghost s2 = buf@;
    match e.context {
        Some(c) => {
            buf.append(",\"context\":");
            push_quoted(&mut buf, c)?;
        },
        None => {},
    }
    assert(buf@ =~= s2 + text_member(",\"context\":"@, opt_text(e.context)));
    let ghost s3 = buf@;
    match e.grouping_hash {
        Some(g) => {
            buf.append(",\"groupingHash\":");
            push_quoted(&mut buf, g)?;
        },
        None => {},
    }
    assert(buf@ =~= s3 + text_member(",\"groupingHash\":"@, opt_text(e.grouping_hash)));
    buf.append(",\"device\":");
    write_device(&mut buf, e.device)?;
    let ghost s4 = buf@;
    match e.app {
        Some(a) => {
            buf.append(",\"app\":");
            write_app(&mut buf, a)?;
        },
        None => {},
    }
    assert(buf@ =~= s4 + app_info_member(*e.app));
    buf.append("}");
    assert(buf@ == event_json(*e)) by {
        reveal(event_text);
    }
    out.append(buf.as_str());
    Ok(())
}

fn write_events(out: &mut String, es: &[Event]) -> (r: Result<(), Error>)
    ensures
        wrote(r, old(out)@, final(out)@, events_json(es@)),
{
    let ghost start = out@;
    let ghost texts = es@.map_values(|e: Event| event_json(e));
    out.append("[");
    let mut i: usize = 0;
    while i < es.len()
        invariant
            texts == es@.map_values(|e: Event| event_json(e)),
            i <= es@.len(),
            out@ == start + "["@ + join(texts.take(i as int)),
        decreases es@.len() - i,
    {
        proof {
            lemma_join_push(texts, i as int);
        }
        if i > 0 {
            out.append(",");
        }
        write_event(out, &es[i])?;
        assert(out@ =~= start + "["@ + join(texts.take(i + 1)));
        i = i + 1;
    }
    out.append("]");
    assert(texts.take(i as int) =~= texts);
    assert(out@ =~= start + events_json(es@));
    Ok(())
}

fn write_notification(out: &mut String, n: &Notification) -> (r: Result<(), Error>)
    ensures
        wrote(r, old(out)@, final(out)@, notification_json(*n)),
{
    let ghost start = out@;
    out.append("{\"apiKey\":");
    push_quoted(out, n.api_key)?;
    out.append(",\"notifier\":");
    out.append("{\"name\":");
    push_quoted(out, n.notifier.name)?;
    out.append(",\"version\":");
    push_quoted(out, n.notifier.version)?;
    out.append(",\"url\":");
    push_quoted(out, n.notifier.url)?;
    out.append("}");
    out.append(",\"events\":");
    write_events(out, n.events)?;
    out.append("}");
    assert(out@ =~= start + notification_json(*n)) by {
        reveal(notification_text);
    }
    Ok(())
}

/// Encoding succeeded and produced exactly `text`.
pub open spec fn encoded(r: Result<String, Error>, text: Seq<char>) -> bool {
    r matches Ok(s) && s@ == text
}

impl Frame {
    /// The frame as a JSON object.
    pub fn to_json(&self) -> (r: Result<String, Error>)
        ensures
            encoded(r, frame_json(*self)),
    {
        let mut out = String::new();
        write_frame(&mut out, self)?;
        assert(out@ =~= frame_json(*self));
        Ok(out)
    }
}

impl<'a> Exception<'a> {
    /// The exception as a JSON object.
    pub fn to_json(&self) -> (r: Result<String, Error>)
        ensures
            encoded(r, exception_json(*self)),
    {
        let mut out = String::new();
        write_exception(&mut out, self)?;
        assert(out@ =~= exception_json(*self));
        Ok(out)
    }
}

impl Severity {
    /// The severity as a JSON string.
    pub fn to_json(&self) -> (r: String)
        ensures
            r@ == severity_json(*self),
    {
        String::from_str(severity_text(*self))
    }
}

impl DeviceInfo {
    /// The device information as a JSON object.
    pub fn to_json(&self) -> (r: Result<String, Error>)
        ensures
            encoded(r, device_json(*self)),
    {
        let mut out = String::new();
        write_device(&mut out, self)?;
        assert(out@ =~= device_json(*self));
        Ok(out)
    }
}

impl AppInfo {
    /// The application information as a JSON object, unset members omitted.
    pub fn to_json(&self) -> (r: Result<String, Error>)
        ensures
            encoded(r, app_json(*self)),
    {
        let mut out = String::new();
        write_app(&mut out, self)?;
        assert(out@ =~= app_json(*self));
        Ok(out)
    }
}

impl<'a> Event<'a> {
    /// The event as a JSON object, unset optional members omitted.
    pub fn to_json(&self) -> (r: Result<String, Error>)
        ensures
            encoded(r, event_json(*self)),
    {
        let mut out = String::new();
        write_event(&mut out, self)?;
        assert(out@ =~= event_json(*self));
        Ok(out)
    }
}

impl<'a> Notification<'a> {
    /// The notification as the JSON text sent to the endpoint.
    pub fn to_json(&self) -> (r: Result<String, Error>)
        ensures
            encoded(r, notification_json(*self)),
    {
        let mut out = String::new();
        write_notification(&mut out, self)?;
        assert(out@ =~= notification_json(*self));
        Ok(out)
    }
}

} // verus!
