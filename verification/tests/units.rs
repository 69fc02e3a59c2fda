use mdevctl::error::{decimal_of, CalloutError};
use mdevctl::order::{le_bytes, le_paths, sort_paths};
use mdevctl::script::{
    invoke_callout_script, print_err, verdict, Output, Payload, Verdict,
};
use mdevctl::tokens::{Action, Event, State};

fn strings(items: &[&str]) -> Vec<String> {
    items.iter().map(|s| s.to_string()).collect()
}

#[test]
fn event_tokens() {
    assert_eq!(Event::Pre.to_string(), "pre");
    assert_eq!(Event::Post.to_string(), "post");
    assert_eq!(Event::Notify.to_string(), "notify");
    assert_eq!(Event::Get.to_string(), "get");
}

#[test]
fn action_tokens() {
    assert_eq!(Action::Start.to_string(), "start");
    assert_eq!(Action::Stop.to_string(), "stop");
    assert_eq!(Action::Define.to_string(), "define");
    assert_eq!(Action::Undefine.to_string(), "undefine");
    assert_eq!(Action::Modify.to_string(), "modify");
    assert_eq!(Action::Attributes.to_string(), "attributes");
}

#[test]
fn state_tokens() {
    assert_eq!(State::NotRun.to_string(), "none");
    assert_eq!(State::Success.to_string(), "success");
    assert_eq!(State::Failure.to_string(), "failure");
}

#[test]
fn argument_vector_has_six_flags_in_order() {
    let run = invoke_callout_script(
        &"/etc/mdevctl.d/scripts.d/callouts/check".to_string(),
        "vfio_ap-passthrough".to_string(),
        "783e6dbb-ea0e-411f-94e2-717eaad438bf".to_string(),
        "matrix".to_string(),
        Event::Post,
        Action::Undefine,
        State::Failure,
        Payload::Device,
    );
    assert_eq!(run.script, "/etc/mdevctl.d/scripts.d/callouts/check");
    assert_eq!(
        run.args,
        strings(&[
            "-t",
            "vfio_ap-passthrough",
            "-e",
            "post",
            "-a",
            "undefine",
            "-s",
            "failure",
            "-u",
            "783e6dbb-ea0e-411f-94e2-717eaad438bf",
            "-p",
            "matrix",
        ])
    );
    assert_eq!(run.stdin, Payload::Device);
}

#[test]
fn argument_vector_keeps_odd_values_as_they_are() {
    let run = invoke_callout_script(
        &"s".to_string(),
        "".to_string(),
        "-u".to_string(),
        "a b".to_string(),
        Event::Get,
        Action::Attributes,
        State::NotRun,
        Payload::Empty,
    );
    assert_eq!(
        run.args,
        strings(&["-t", "", "-e", "get", "-a", "attributes", "-s", "none", "-u", "-u", "-p", "a b"])
    );
    assert_eq!(run.stdin, Payload::Empty);
}

#[test]
fn exit_status_verdicts() {
    assert_eq!(verdict(None), Verdict::Skipped);
    assert_eq!(verdict(Some(2)), Verdict::Declined);
    assert_eq!(verdict(Some(0)), Verdict::Claimed);
    assert_eq!(verdict(Some(1)), Verdict::Claimed);
    assert_eq!(verdict(Some(3)), Verdict::Claimed);
    assert_eq!(verdict(Some(-2)), Verdict::Claimed);
    assert_eq!(verdict(Some(255)), Verdict::Claimed);
    assert_eq!(verdict(Some(i32::MIN)), Verdict::Claimed);
}

fn wrote(stderr: &str) -> Output {
    Output { code: Some(1), stdout: String::new(), stderr: stderr.to_string() }
}

#[test]
fn standard_error_is_tagged_with_the_file_name() {
    let line = print_err(&wrote("boom\n"), &"/etc/mdevctl.d/scripts.d/callouts/guard.sh".to_string());
    assert_eq!(line, Some("guard.sh: boom\n".to_string()));
    let line = print_err(&wrote("x"), &"relative".to_string());
    assert_eq!(line, Some("relative: x".to_string()));
    let line = print_err(&wrote("x"), &"dir/sub/".to_string());
    assert_eq!(line, Some("sub: x".to_string()));
}

#[test]
fn silent_script_is_not_reported() {
    assert_eq!(print_err(&wrote(""), &"/c/check".to_string()), None);
}

#[test]
fn script_without_a_file_name_is_reported_as_unknown() {
    assert_eq!(
        print_err(&wrote("x"), &"/c/..".to_string()),
        Some("unknown script name: x".to_string())
    );
    assert_eq!(print_err(&wrote("x"), &"/".to_string()), Some("unknown script name: x".to_string()));
    assert_eq!(print_err(&wrote("x"), &"".to_string()), Some("unknown script name: x".to_string()));
}

#[test]
fn bytes_are_ordered_by_the_first_difference() {
    assert!(le_bytes(b"", b""));
    assert!(le_bytes(b"", b"a"));
    assert!(!le_bytes(b"a", b""));
    assert!(le_bytes(b"a", b"a"));
    assert!(le_bytes(b"a", b"ab"));
    assert!(!le_bytes(b"ab", b"a"));
    assert!(le_bytes(b"ab", b"b"));
    assert!(!le_bytes(b"b", b"ab"));
    assert!(le_bytes(&[0x7f], &[0x80]));
    assert!(!le_bytes(&[0xff], &[0x00, 0xff]));
}

#[test]
fn paths_are_ordered_by_their_bytes() {
    assert!(le_paths(&"/c/B".to_string(), &"/c/a".to_string()));
    assert!(!le_paths(&"/c/a".to_string(), &"/c/B".to_string()));
    assert!(le_paths(&"/c/10".to_string(), &"/c/9".to_string()));
    assert!(le_paths(&"/c/z".to_string(), &"/c/\u{e9}".to_string()));
    assert!(!le_paths(&"/c/\u{e9}".to_string(), &"/c/z".to_string()));
    assert!(le_paths(&"/c/\u{e9}".to_string(), &"/c/\u{4e2d}".to_string()));
    assert!(le_paths(&"/c/same".to_string(), &"/c/same".to_string()));
}

#[test]
fn entries_are_sorted_as_the_standard_library_sorts_them() {
    let entries = strings(&[
        "/c/50-b", "/c/10-z", "/c/50-a", "/c/Z", "/c/a", "/c/10", "/c/\u{e9}", "/c/10-z", "/c/_",
    ]);
    let mut expected = entries.clone();
    expected.sort();
    assert_eq!(sort_paths(&entries), expected);
    assert_eq!(
        sort_paths(&entries),
        strings(&[
            "/c/10", "/c/10-z", "/c/10-z", "/c/50-a", "/c/50-b", "/c/Z", "/c/_", "/c/a", "/c/\u{e9}",
        ])
    );
}

#[test]
fn sorting_does_not_depend_on_the_order_read() {
    let one = strings(&["/c/b", "/c/a", "/c/c", "/c/ab"]);
    let other = strings(&["/c/ab", "/c/c", "/c/b", "/c/a"]);
    assert_eq!(sort_paths(&one), sort_paths(&other));
    assert_eq!(sort_paths(&one), strings(&["/c/a", "/c/ab", "/c/b", "/c/c"]));
}

#[test]
fn sorting_nothing_gives_nothing() {
    assert_eq!(sort_paths(&Vec::new()), Vec::<String>::new());
    assert_eq!(sort_paths(&strings(&["/only"])), strings(&["/only"]));
}

#[test]
fn exit_status_in_decimal() {
    for n in [0, 1, 2, 7, 9, 10, 11, 99, 100, 127, 255, 1000, -1, -9, -10, -128, i32::MAX, i32::MIN] {
        assert_eq!(decimal_of(n), n.to_string());
    }
    assert_eq!(decimal_of(-2147483648), "-2147483648");
    assert_eq!(decimal_of(2147483647), "2147483647");
    assert_eq!(decimal_of(1203), "1203");
}

#[test]
fn failure_messages() {
    assert_eq!(
        CalloutError::NoMatchingScript.to_string(),
        "No matching script for device found"
    );
    assert_eq!(
        CalloutError::InvocationFailure("/etc/callouts/a b".to_string(), Some(1)).to_string(),
        "Script '\"/etc/callouts/a b\"' failed with status '1'"
    );
    assert_eq!(
        CalloutError::InvocationFailure("/c/quo\"te\n".to_string(), Some(-3)).to_string(),
        format!(
            "Script '{:?}' failed with status '{}'",
            std::path::PathBuf::from("/c/quo\"te\n"),
            -3
        )
    );
    assert_eq!(
        CalloutError::InvocationFailure("/c/quo\"te\n".to_string(), Some(-3)).to_string(),
        "Script '\"/c/quo\\\"te\\n\"' failed with status '-3'"
    );
    assert_eq!(
        CalloutError::InvocationFailure("s".to_string(), None).to_string(),
        "Script '\"s\"' failed with status 'unknown'"
    );
    let broken = serde_json::from_str::<serde_json::Value>("{").unwrap_err();
    assert_eq!(
        CalloutError::InvalidJSON(broken).to_string(),
        "Invalid JSON received from callout script"
    );
}
