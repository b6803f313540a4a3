//! The client and the builder of one notification.

use vstd::prelude::*;
use crate::appinfo::{opt_str_view, opt_string_view, AppInfo};
use crate::deviceinfo::DeviceInfo;
use crate::error::{Error, Severity};
use crate::event::{Event, PAYLOAD_VERSION};
use crate::exception::Exception;
use crate::json::{
    encoded, event_json, event_text, exception_json, exception_text, exceptions_json, list_text,
    notification_text, opt_text,
};
use crate::notification::{Notification, Notifier, NOTIFIER_NAME, NOTIFIER_URL, NOTIFIER_VERSION};
use crate::stacktrace::{
    self, frames_located, frames_of, ignore_list_view, in_project_rule, Classifier, Frame,
    ResolvedSymbol,
};

verus! {

/// The client as seen by contracts.
pub ghost struct ClientView {
    pub api_key: Seq<char>,
    pub project_source_dir: Seq<char>,
    pub device_info: DeviceInfo,
    pub app_info: Option<AppInfo>,
}

/// A client of the error-tracking service.
pub struct Bugsnag {
    api_key: String,
    device_info: DeviceInfo,
    app_info: Option<AppInfo>,
    project_source_dir: String,
}

impl View for Bugsnag {
    type V = ClientView;

    closed spec fn view(&self) -> ClientView {
        ClientView {
            api_key: self.api_key@,
            project_source_dir: self.project_source_dir@,
            device_info: self.device_info,
            app_info: self.app_info,
        }
    }
}

/// A notification being prepared, as seen by contracts.
pub ghost struct ReportView {
    pub client: ClientView,
    pub error_class: Seq<char>,
    pub message: Seq<char>,
    pub sent: bool,
    pub methods_to_ignore: Option<Seq<Seq<char>>>,
    pub context: Option<Seq<char>>,
    pub severity: Option<Severity>,
    pub grouping_hash: Option<Seq<char>>,
}

/// Builder for the notification sent about one error. The notification is
/// handed out for sending at most once.
pub struct NotifyBuilder<'a, 'b> {
    bugsnag: &'b Bugsnag,
    error_class: &'a str,
    message: &'a str,
    send_executed: bool,
    methods_to_ignore: Option<&'a [&'a str]>,
    context: Option<&'a str>,
    severity: Option<Severity>,
    grouping_hash: Option<&'a str>,
}

impl<'a, 'b> View for NotifyBuilder<'a, 'b> {
    type V = ReportView;

    closed spec fn view(&self) -> ReportView {
        ReportView {
            client: self.bugsnag@,
            error_class: self.error_class@,
            message: self.message@,
            sent: self.send_executed,
            methods_to_ignore: ignore_list_view(self.methods_to_ignore),
            context: opt_text(self.context),
            severity: self.severity,
            grouping_hash: opt_text(self.grouping_hash),
        }
    }
}

/// The notifier block that identifies this library.
pub open spec fn this_notifier() -> Notifier {
    Notifier { name: NOTIFIER_NAME, version: NOTIFIER_VERSION, url: NOTIFIER_URL }
}

/// The JSON text of the notification for one error: one event holding one
/// exception with the given stack frames.
pub open spec fn report_json(r: ReportView, frames: Seq<Frame>) -> Seq<char> {
    notification_text(
        r.client.api_key,
        this_notifier(),
        list_text(
            seq![
                event_text(
                    PAYLOAD_VERSION,
                    list_text(seq![exception_text(r.error_class, r.message, frames)]),
                    r.severity,
                    r.context,
                    r.grouping_hash,
                    r.client.device_info,
                    r.client.app_info,
                ),
            ],
        ),
    )
}

/// Every frame's project flag follows the classification rule for the
/// client's source directory and the report's ignore list.
pub open spec fn frames_classified(r: ReportView, frames: Seq<Frame>) -> bool {
    forall|i: int|
        0 <= i < frames.len() ==> (#[trigger] frames[i]).in_project == in_project_rule(
            r.client.project_source_dir,
            r.methods_to_ignore,
            frames[i].file@,
            frames[i].method@,
        )
}

/// What one call of `send` does: a builder that was sent stays as it is and
/// hands out nothing; one that was not is marked sent and hands out the
/// notification for the stack captured then.
pub open spec fn send_step(
    before: ReportView,
    after: ReportView,
    r: Result<Option<String>, Error>,
) -> bool {
    if before.sent {
        after == before && r == Ok::<Option<String>, Error>(None)
    } else {
        &&& after == ReportView { sent: true, ..before }
        &&& r matches Ok(Some(json)) && exists|frames: Seq<Frame>|
            {
                &&& exists|symbols: Seq<ResolvedSymbol>| frames_located(frames, symbols)
                &&& frames_classified(before, frames)
                &&& json@ == report_json(before, frames)
            }
    }
}

/// Of two consecutive sends, the second hands out nothing and changes
/// nothing; the first hands out the notification exactly when the builder
/// had not been sent. So over any number of sends a builder hands exactly one
/// notification to the transport, whichever send comes first.
pub proof fn lemma_send_twice(
    b0: ReportView,
    b1: ReportView,
    b2: ReportView,
    r1: Result<Option<String>, Error>,
    r2: Result<Option<String>, Error>,
)
    requires
        send_step(b0, b1, r1),
        send_step(b1, b2, r2),
    ensures
        r2 == Ok::<Option<String>, Error>(None),
        b2 == b1,
        b1.sent,
        !b0.sent ==> r1 matches Ok(Some(_)),
        b0.sent ==> r1 == Ok::<Option<String>, Error>(None),
{
}

impl<'a, 'b> NotifyBuilder<'a, 'b> {
    fn new(bugsnag: &'b Bugsnag, error_class: &'a str, message: &'a str) -> (r: NotifyBuilder<'a, 'b>)
        ensures
            r@ == (ReportView {
                client: bugsnag@,
                error_class: error_class@,
                message: message@,
                sent: false,
                methods_to_ignore: None,
                context: None,
                severity: None,
                grouping_hash: None,
            }),
    {
        NotifyBuilder {
            bugsnag,
            error_class,
            message,
            send_executed: false,
            methods_to_ignore: None,
            context: None,
            severity: None,
            grouping_hash: None,
        }
    }

    /// Sets the method names whose frames are not marked as part of the
    /// project; see the classification rule for how the list is applied.
    pub fn methods_to_ignore(self, val: &'a [&'a str]) -> (r: Self)
        ensures
            r@ == (ReportView { methods_to_ignore: Some(val@.map_values(|e: &str| e@)), ..self@ }),
    {
        NotifyBuilder { methods_to_ignore: Some(val), ..self }
    }

    /// Sets a context that describes the state of the application.
    pub fn context(self, val: &'a str) -> (r: Self)
        ensures
            r@ == (ReportView { context: Some(val@), ..self@ }),
    {
        NotifyBuilder { context: Some(val), ..self }
    }

    /// Sets the severity of the error.
    pub fn severity(self, val: Severity) -> (r: Self)
        ensures
            r@ == (ReportView { severity: Some(val), ..self@ }),
    {
        NotifyBuilder { severity: Some(val), ..self }
    }

    /// Sets the hash the service groups events by.
    pub fn grouping_hash(self, val: &'a str) -> (r: Self)
        ensures
            r@ == (ReportView { grouping_hash: Some(val@), ..self@ }),
    {
        NotifyBuilder { grouping_hash: Some(val), ..self }
    }

    /// The JSON text of the notification with `stacktrace` as its frames.
    pub fn prepare_json(&self, stacktrace: &[Frame]) -> (r: Result<String, Error>)
        ensures
            encoded(r, report_json(self@, stacktrace@)),
    {
        let exceptions = vec![Exception::new(self.error_class, self.message, stacktrace)];
        let severity: Option<&Severity> = match &self.severity {
            Some(s) => Some(s),
            None => None,
        };
        let events = vec![
            Event::new(
                exceptions.as_slice(),
                severity,
                self.context,
                self.grouping_hash,
                &self.bugsnag.device_info,
                &self.bugsnag.app_info,
            ),
        ];
        let notification = Notification::new(self.bugsnag.api_key.as_str(), events.as_slice());
        proof {
            assert(exceptions@.map_values(|e: Exception| exception_json(e)) =~= seq![
                exception_text(self@.error_class, self@.message, stacktrace@),
            ]);
            assert(events@.map_values(|e: Event| event_json(e)) =~= seq![
                event_text(
                    PAYLOAD_VERSION,
                    exceptions_json(exceptions@),
                    self@.severity,
                    self@.context,
                    self@.grouping_hash,
                    self@.client.device_info,
                    self@.client.app_info,
                ),
            ]);
            assert(notification.notifier == this_notifier());
        }
        notification.to_json()
    }

    /// Hands out the notification to send, the first time only: after that the
    /// builder is marked sent and further calls hand out nothing.
    pub fn send(&mut self) -> (r: Result<Option<String>, Error>)
        ensures
            send_step(old(self)@, final(self)@, r),
    {
        if self.send_executed {
            return Ok(None);
        }
        self.send_executed = true;
        let stacktrace = self.bugsnag.create_stacktrace(self.methods_to_ignore);
        let json = self.prepare_json(stacktrace.as_slice())?;
        proof {
            assert(frames_classified(old(self)@, stacktrace@));
            assert(report_json(self@, stacktrace@) == report_json(old(self)@, stacktrace@));
        }
        Ok(Some(json))
    }
}

impl Bugsnag {
    /// Creates a client that reports with the given device information.
    pub fn new(api_key: &str, project_source_dir: &str, device_info: DeviceInfo) -> (r: Bugsnag)
        ensures
            r@ == (ClientView {
                api_key: api_key@,
                project_source_dir: project_source_dir@,
                device_info: device_info,
                app_info: None,
            }),
    {
        Bugsnag {
            api_key: api_key.to_owned(),
            device_info,
            app_info: None,
            project_source_dir: project_source_dir.to_owned(),
        }
    }

    /// Starts a notification about an error; the builder takes the details.
    pub fn notify<'a, 'b>(&'b self, error_class: &'a str, message: &'a str) -> (r: NotifyBuilder<'a, 'b>)
        ensures
            r@ == (ReportView {
                client: self@,
                error_class: error_class@,
                message: message@,
                sent: false,
                methods_to_ignore: None,
                context: None,
                severity: None,
                grouping_hash: None,
            }),
    {
        NotifyBuilder::new(self, error_class, message)
    }

    /// Captures the current stack, classifying frames by the project directory
    /// and the ignore list.
    fn create_stacktrace(&self, methods_to_ignore: Option<&[&str]>) -> (r: Vec<Frame>)
        ensures
            exists|symbols: Seq<ResolvedSymbol>| frames_located(r@, symbols),
            forall|i: int|
                0 <= i < r@.len() ==> (#[trigger] r@[i]).in_project == in_project_rule(
                    self@.project_source_dir,
                    ignore_list_view(methods_to_ignore),
                    r@[i].file@,
                    r@[i].method@,
                ),
    {
        let classifier = Classifier::new(self.project_source_dir.as_str(), methods_to_ignore);
        let r = stacktrace::create_stacktrace(Some(&classifier));
        proof {
            let symbols = choose|symbols: Seq<ResolvedSymbol>| frames_of(r@, symbols, Some(&classifier));
            assert(frames_located(r@, symbols));
        }
        r
    }

    /// Overrides the hostname and the OS version where given.
    pub fn set_device_info(&mut self, hostname: Option<&str>, version: Option<&str>)
        ensures
            final(self)@ == (ClientView { device_info: final(self)@.device_info, ..old(self)@ }),
            final(self)@.device_info.hostname@ == match hostname {
                Some(h) => h@,
                None => old(self)@.device_info.hostname@,
            },
            final(self)@.device_info.os_version@ == match version {
                Some(v) => v@,
                None => old(self)@.device_info.os_version@,
            },
    {
        if let Some(name) = hostname {
            self.device_info.set_hostname(name);
        }
        if let Some(ver) = version {
            self.device_info.set_os_version(ver);
        }
    }

    /// Sets the information about the application sent with notifications.
    pub fn set_app_info(&mut self, version: Option<&str>, release_stage: Option<&str>, atype: Option<&str>)
        ensures
            final(self)@ == (ClientView { app_info: final(self)@.app_info, ..old(self)@ }),
            final(self)@.app_info matches Some(a) && opt_string_view(a.version) == opt_str_view(version)
                && opt_string_view(a.release_stage) == opt_str_view(release_stage)
                && opt_string_view(a.atype) == opt_str_view(atype),
    {
        self.app_info = Some(AppInfo::new(version, release_stage, atype));
    }

    /// Removes the information about the application.
    pub fn reset_app_info(&mut self)
        ensures
            final(self)@ == (ClientView { app_info: None, ..old(self)@ }),
    {
        self.app_info = None;
    }

    pub fn get_project_source_dir(&self) -> (r: &String)
        ensures
            r@ == self@.project_source_dir,
    {
        &self.project_source_dir
    }
}

} // verus!
