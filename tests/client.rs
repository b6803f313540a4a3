use bugsnag::panic::{fault_message, handle};
use bugsnag::{Bugsnag, DeviceInfo, Error, GlobalInstance, Severity, Wrapper};

fn device() -> DeviceInfo {
    DeviceInfo::new("1.0.0", "testmachine")
}

#[test]
fn test_global_instance_create() {
    let registry = GlobalInstance::new();
    let bugsnag = Bugsnag::new("my-api-key", "", device());
    assert!(bugsnag.to_global_instance(&registry).is_ok());

    let instance = Bugsnag::global_instance(&registry);
    assert!(instance.is_some());

    let instance_unpacked = instance.unwrap();
    let guard = instance_unpacked.acquire_read();
    assert_eq!(guard.borrow().get_project_source_dir(), "");
    guard.release_read();

    Bugsnag::reset_global_instance(&registry);
}

#[test]
fn test_new_with_existing_global_instance() {
    let registry = GlobalInstance::new();
    let bugsnag = Bugsnag::new("my-api-key", "", device());
    bugsnag.to_global_instance(&registry).unwrap();

    assert_eq!(
        Bugsnag::new("my-second-api-key", "", device()).to_global_instance(&registry).err().unwrap(),
        Error::GlobalInstanceExists
    );
    Bugsnag::reset_global_instance(&registry);
}

#[test]
fn test_global_instance_reset() {
    let registry = GlobalInstance::new();
    let bugsnag = Bugsnag::new("my-api-key", "", device());
    bugsnag.to_global_instance(&registry).unwrap();
    Bugsnag::reset_global_instance(&registry);

    assert!(Bugsnag::global_instance(&registry).is_none());
}

#[test]
fn test_new_after_global_instance_reset() {
    let registry = GlobalInstance::new();
    let bugsnag = Bugsnag::new("my-api-key", "", device());
    bugsnag.to_global_instance(&registry).unwrap();
    Bugsnag::reset_global_instance(&registry);

    assert!(Bugsnag::global_instance(&registry).is_none());
    let bugsnag_option = Bugsnag::new("my-api-key", "path", device());
    assert_eq!(bugsnag_option.get_project_source_dir(), "path");
    assert!(bugsnag_option.to_global_instance(&registry).is_ok());
    assert!(Bugsnag::global_instance(&registry).is_some());
    Bugsnag::reset_global_instance(&registry);
}

#[test]
fn test_get_project_dir() {
    let api = Bugsnag::new("api-key", "my-dir", device());
    assert_eq!(api.get_project_source_dir(), "my-dir");
}

#[test]
fn global_instance_reads_share_one_client() {
    let registry = GlobalInstance::new();
    Bugsnag::new("key-a", "dir-a", device()).to_global_instance(&registry).unwrap();
    let first = Bugsnag::global_instance(&registry).unwrap();
    let second = Bugsnag::global_instance(&registry).unwrap();
    assert!(std::sync::Arc::ptr_eq(&first, &second));
    let guard = second.acquire_read();
    assert_eq!(guard.borrow().get_project_source_dir(), "dir-a");
    guard.release_read();
}

#[test]
fn wrapper_refuses_second_client() {
    let mut slot = Wrapper::new();
    assert!(!slot.has_instance());
    assert!(slot.instance().is_none());
    assert!(slot.set_instance(Bugsnag::new("one", "d1", device())).is_ok());
    assert!(slot.has_instance());
    assert_eq!(slot.set_instance(Bugsnag::new("two", "d2", device())), Err(Error::GlobalInstanceExists));
    let h = slot.instance().unwrap();
    let guard = h.acquire_read();
    assert_eq!(guard.borrow().get_project_source_dir(), "d1");
    guard.release_read();
    slot.reset_instance();
    assert!(!slot.has_instance());
    assert!(slot.instance().is_none());
}

#[test]
fn send_twice_hands_out_one_payload() {
    let api = Bugsnag::new("api-key", "/nowhere", device());
    let mut builder = api.notify("Error", "message");
    let first = builder.send();
    assert!(first.unwrap().is_some());
    assert_eq!(builder.send(), Ok(None));
    assert_eq!(builder.send(), Ok(None));
}

#[test]
fn sent_payload_carries_builder_settings() {
    let mut api = Bugsnag::new("api-key", "/nowhere", device());
    api.set_device_info(Some("host"), Some("os"));
    let ignore = ["x"];
    let mut builder = api
        .notify("Kind", "what happened")
        .severity(Severity::Warning)
        .context("ctx")
        .grouping_hash("gh")
        .methods_to_ignore(&ignore);
    let json = builder.send().unwrap().unwrap();
    assert!(json.starts_with("{\"apiKey\":\"api-key\",\"notifier\":{\"name\":\"Bugsnag Rust\""));
    assert!(json.contains("\"errorClass\":\"Kind\",\"message\":\"what happened\",\"stacktrace\":["));
    assert!(json.contains(",\"severity\":\"warning\",\"context\":\"ctx\",\"groupingHash\":\"gh\",\"device\":{\"osVersion\":\"os\",\"hostname\":\"host\"}}]}"));
}

#[test]
fn notify_end_to_end_payload() {
    let mut api = Bugsnag::new("safe-api-key", "", device());
    api.set_device_info(Some("testmachine"), Some("1.0.0"));
    let builder = api.notify("Assert", "Assert");
    let json = builder.prepare_json(&[]).unwrap();
    assert_eq!(
        json,
        "{\"apiKey\":\"safe-api-key\",\"notifier\":{\"name\":\"Bugsnag Rust\",\"version\":\"0.2.0\",\"url\":\"https://github.com/superscale/bugsnag-api-rs\"},\"events\":[{\"payloadVersion\":4,\"exceptions\":[{\"errorClass\":\"Assert\",\"message\":\"Assert\",\"stacktrace\":[]}],\"device\":{\"osVersion\":\"1.0.0\",\"hostname\":\"testmachine\"}}]}"
    );
}

#[test]
fn app_info_is_sent_until_reset() {
    let mut api = Bugsnag::new("k", "", device());
    api.set_device_info(Some("h"), None);
    api.set_app_info(Some("1.0.0"), None, Some("rust"));
    let json = api.notify("C", "M").prepare_json(&[]).unwrap();
    assert!(json.ends_with(",\"app\":{\"version\":\"1.0.0\",\"type\":\"rust\"}}]}"));
    api.reset_app_info();
    let json = api.notify("C", "M").prepare_json(&[]).unwrap();
    assert!(!json.contains("\"app\""));
}

#[test]
fn set_device_info_keeps_unset_parts() {
    let mut api = Bugsnag::new("k", "", device());
    api.set_device_info(Some("h1"), Some("v1"));
    api.set_device_info(None, Some("v2"));
    let json = api.notify("C", "M").prepare_json(&[]).unwrap();
    assert!(json.contains("\"device\":{\"osVersion\":\"v2\",\"hostname\":\"h1\"}"));
}

#[test]
fn fault_report_uses_panic_class_and_error_severity() {
    assert_eq!(fault_message(Some("boom")), "boom");
    assert_eq!(fault_message(None), "unknown error");
    let mut api = Bugsnag::new("k", "", device());
    api.set_device_info(Some("h"), Some("v"));
    let builder = handle(&api, "boom", None);
    let json = builder.prepare_json(&[]).unwrap();
    assert!(json.contains("\"errorClass\":\"Panic\",\"message\":\"boom\""));
    assert!(json.contains(",\"severity\":\"error\","));
}

#[test]
fn error_descriptions() {
    assert_eq!(Error::JsonConversionFailed.description(), "conversion to json failed");
    assert_eq!(
        Error::JsonTransferFailed.description(),
        "while transferring the json to Bugsnag, a problem occurred"
    );
    assert_eq!(Error::GlobalInstanceExists.description(), "a global instance already exists");
}

#[test]
fn global_instance_many_reads_share_one_client() {
    let registry = GlobalInstance::new();
    Bugsnag::new("key-c", "dir-c", DeviceInfo::new("os-c", "host-c")).to_global_instance(&registry).unwrap();
    let stored = Bugsnag::global_instance(&registry).unwrap();
    for _ in 0..8 {
        let h = Bugsnag::global_instance(&registry).unwrap();
        assert!(std::sync::Arc::ptr_eq(&h, &stored));
        let guard = h.acquire_read();
        let json = guard.borrow().notify("C", "M").prepare_json(&[]).unwrap();
        assert!(json.starts_with("{\"apiKey\":\"key-c\""));
        assert!(json.contains("\"device\":{\"osVersion\":\"os-c\",\"hostname\":\"host-c\"}"));
        assert_eq!(guard.borrow().get_project_source_dir(), "dir-c");
        guard.release_read();
    }
}
