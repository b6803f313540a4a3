use bugsnag::stacktrace::{create_stacktrace, frames_from_symbols, Classifier, Frame, ResolvedSymbol};

// Calls itself, so it keeps a frame of its own however far the test is inlined.
fn stacktrace_test_capture(depth: u32) -> Vec<Frame> {
    if depth == 0 {
        create_stacktrace(None)
    } else {
        let frames = stacktrace_test_capture(depth - 1);
        assert!(!frames.is_empty());
        frames
    }
}

#[test]
fn stacktrace_test_create_stacktrace() {
    let frames = stacktrace_test_capture(std::hint::black_box(2));
    let mut found_frame = false;
    let mut capture_seen = false;
    let file = "tests/stacktrace.rs";

    for frame in frames {
        if frame.method.contains("stacktrace::create_stacktrace") {
            capture_seen = true;
        }
        if frame.method.contains("stacktrace::stacktrace_test_capture") {
            // The file is resolved only where the test was built with debug information.
            assert!(frame.file.is_empty() || frame.file.ends_with(file));
            assert!(!frame.in_project);
            if capture_seen {
                found_frame = true;
                break;
            }
        }
    }

    assert!(found_frame);
}

#[test]
fn test_create_stacktrace() {
    let classifier = Classifier::new("", None);
    let frames = create_stacktrace(Some(&classifier));
    let mut found_frame = false;

    for frame in frames {
        if frame.method.contains("stacktrace::create_stacktrace") {
            if frame.in_project {
                found_frame = true;
                break;
            }
        }
    }

    assert!(found_frame);
}

#[test]
fn test_create_stacktrace_with_ignore() {
    let ignore = ["create_stacktrace"];
    let classifier = Classifier::new("", Some(&ignore));
    let frames = create_stacktrace(Some(&classifier));
    let mut found_frame = false;
    let mut other_in_project = false;

    for frame in frames {
        if frame.method.contains("stacktrace::create_stacktrace") {
            if frame.in_project == false {
                found_frame = true;
            }
        } else if frame.in_project {
            other_in_project = true;
        }
    }

    assert!(found_frame);
    assert!(other_in_project);
}

#[test]
fn stacktrace_test_frame_to_json() {
    let frame = Frame::new("test.rs", 500, "test_json", false);

    assert_eq!(
        frame.to_json().unwrap(),
        "{\"file\":\"test.rs\",\"lineNumber\":500,\"method\":\"test_json\",\"inProject\":false}"
    );
}

#[test]
fn frame_json_escapes_text_and_writes_numbers() {
    let frame = Frame::new("a\"b\\c.rs", 0, "line\nbreak", true);

    assert_eq!(
        frame.to_json().unwrap(),
        "{\"file\":\"a\\\"b\\\\c.rs\",\"lineNumber\":0,\"method\":\"line\\nbreak\",\"inProject\":true}"
    );
    let frame = Frame::new("x", 4294967295, "m", false);
    assert_eq!(
        frame.to_json().unwrap(),
        "{\"file\":\"x\",\"lineNumber\":4294967295,\"method\":\"m\",\"inProject\":false}"
    );
}

#[test]
fn unresolved_symbol_gives_default_frame() {
    let sym = ResolvedSymbol { file: None, line: None, name: None };
    let frame = Frame::from_symbol(&sym, None);
    assert_eq!(frame.file, "");
    assert_eq!(frame.line_number, 0);
    assert_eq!(frame.method, "unknown");
    assert!(!frame.in_project);
}

#[test]
fn resolved_symbol_is_classified() {
    let sym = ResolvedSymbol {
        file: Some("/home/me/project/src/main.rs".to_string()),
        line: Some(12),
        name: Some("project::main".to_string()),
    };
    let classifier = Classifier::new("/home/me/project", None);
    let frame = Frame::from_symbol(&sym, Some(&classifier));
    assert_eq!(frame.file, "/home/me/project/src/main.rs");
    assert_eq!(frame.line_number, 12);
    assert_eq!(frame.method, "project::main");
    assert!(frame.in_project);
    let frame = Frame::from_symbol(&sym, None);
    assert!(!frame.in_project);
}

#[test]
fn classify_without_ignore_list_is_prefix_test() {
    let classifier = Classifier::new("/src/app", None);
    assert!(classifier.classify("/src/app/main.rs", "main"));
    assert!(classifier.classify("/src/app", "main"));
    assert!(!classifier.classify("/src/ap", "main"));
    assert!(!classifier.classify("/other/src/app/main.rs", "main"));
    let everything = Classifier::new("", None);
    assert!(everything.classify("", "m"));
    assert!(everything.classify("ä/ö.rs", "m"));
}

#[test]
fn classify_with_ignore_list_follows_literal_rule() {
    let one = ["skip_me"];
    let classifier = Classifier::new("/src", Some(&one));
    assert!(!classifier.classify("/src/a.rs", "crate::skip_me"));
    assert!(classifier.classify("/src/a.rs", "crate::keep"));
    assert!(!classifier.classify("/lib/a.rs", "crate::keep"));

    let two = ["skip_me", "other"];
    let classifier = Classifier::new("/src", Some(&two));
    assert!(classifier.classify("/src/a.rs", "crate::skip_me"));
    assert!(!classifier.classify("/src/a.rs", "skip_me::other"));

    let none: [&str; 0] = [];
    let classifier = Classifier::new("/src", Some(&none));
    assert!(!classifier.classify("/src/a.rs", "anything"));
}

#[test]
fn frames_from_symbols_keeps_order_and_defaults() {
    let symbols = vec![
        ResolvedSymbol { file: Some("/p/a.rs".to_string()), line: Some(3), name: Some("a".to_string()) },
        ResolvedSymbol { file: None, line: Some(9), name: None },
        ResolvedSymbol { file: Some("/q/b.rs".to_string()), line: None, name: Some("b".to_string()) },
    ];
    let classifier = Classifier::new("/p", None);
    let frames = frames_from_symbols(&symbols, Some(&classifier));
    assert_eq!(frames.len(), 3);
    assert_eq!(frames[0].file, "/p/a.rs");
    assert_eq!(frames[0].line_number, 3);
    assert_eq!(frames[0].method, "a");
    assert!(frames[0].in_project);
    assert_eq!(frames[1].file, "");
    assert_eq!(frames[1].line_number, 9);
    assert_eq!(frames[1].method, "unknown");
    assert!(!frames[1].in_project);
    assert_eq!(frames[2].file, "/q/b.rs");
    assert_eq!(frames[2].line_number, 0);
    assert!(!frames[2].in_project);
    assert!(frames_from_symbols(&[], None).is_empty());
}
