use mdevctl::callouts::{Callout, Match, Notice, Reply, Request};
use mdevctl::script::{Device, Output, Payload};
use mdevctl::tokens::{Action, Event};

fn device() -> Device {
    Device {
        uuid: "c07ab7b2-8aa2-427a-91c6-ffc949bb77f9".to_string(),
        mdev_type: Some("nvidia-11".to_string()),
        parent: Some("0000:00:02.0".to_string()),
    }
}

fn exited(code: Option<i32>) -> Reply {
    Reply::Ran(Some(Output { code, stdout: "out".to_string(), stderr: "err".to_string() }))
}

fn listing(entries: &[&str]) -> Reply {
    Reply::Listing(Some(entries.iter().map(|e| e.to_string()).collect()))
}

/// Takes a search through a listing; `answers` are given to the runs in the
/// order in which they are asked for. Gives the scripts that were run and
/// what the search came to.
fn search(entries: &[&str], answers: Vec<Reply>) -> (Vec<String>, Match) {
    let (ran, _, _, found) = search_heard(entries, answers);
    (ran, found)
}

/// The same, with the lines for the operator and what was handed out for
/// the log.
fn search_heard(
    entries: &[&str],
    answers: Vec<Reply>,
) -> (Vec<String>, Vec<String>, Vec<Notice>, Match) {
    let dev = device();
    let mut session = Callout::new();
    let mut ran = Vec::new();
    let mut echoed = Vec::new();
    let mut noted = Vec::new();
    let mut answers = answers.into_iter();
    let mut scan =
        session.invoke_first_matching_script(&dev, Event::Pre, Action::Start, listing(entries));
    loop {
        echoed.extend(scan.echo);
        noted.extend(scan.notice);
        match scan.found {
            Match::Ask(Request::Run(run)) => {
                assert_eq!(run.stdin, Payload::Device);
                assert_eq!(run.args[3], "pre");
                ran.push(run.script);
                let answer = answers.next().expect("more runs than answers");
                scan = session.invoke_first_matching_script(&dev, Event::Pre, Action::Start, answer);
            }
            other => return (ran, echoed, noted, other),
        }
    }
}

#[test]
fn search_skips_decliners_and_takes_the_first_claim() {
    let (ran, m) = search(
        &["/c/30", "/c/10", "/c/40", "/c/20"],
        vec![exited(Some(2)), exited(Some(2)), exited(Some(1)), exited(Some(0))],
    );
    assert_eq!(ran, vec!["/c/10", "/c/20", "/c/30"]);
    match m {
        Match::Found(script, output) => {
            assert_eq!(script, "/c/30");
            assert_eq!(output.code, Some(1));
            assert_eq!(output.stdout, "out");
            assert_eq!(output.stderr, "err");
        }
        other => panic!("unexpected {:?}", other),
    }
}

#[test]
fn search_takes_exit_status_zero_as_a_claim() {
    let (ran, m) = search(&["/c/b", "/c/a"], vec![exited(Some(0))]);
    assert_eq!(ran, vec!["/c/a"]);
    assert!(matches!(m, Match::Found(script, _) if script == "/c/a"));
}

#[test]
fn search_skips_scripts_ended_by_a_signal() {
    let (ran, m) = search(&["/c/a", "/c/b", "/c/c"], vec![exited(None), exited(Some(4))]);
    assert_eq!(ran, vec!["/c/a", "/c/b"]);
    assert!(matches!(m, Match::Found(script, output) if script == "/c/b" && output.code == Some(4)));
}

#[test]
fn search_ends_at_a_script_that_cannot_be_started() {
    let (ran, m) = search(&["/c/b", "/c/a", "/c/c"], vec![exited(Some(2)), Reply::Ran(None)]);
    assert_eq!(ran, vec!["/c/a", "/c/b"]);
    assert!(matches!(m, Match::Unstartable(script) if script == "/c/b"));
    let (ran, m) = search(&["/c/a", "/c/b"], vec![Reply::Ran(None)]);
    assert_eq!(ran, vec!["/c/a"]);
    assert!(matches!(m, Match::Unstartable(script) if script == "/c/a"));
}

#[test]
fn search_hands_out_what_every_script_wrote() {
    let (ran, echoed, noted, m) = search_heard(
        &["/c/a", "/c/b", "/c/c"],
        vec![exited(Some(2)), exited(None), exited(Some(0))],
    );
    assert_eq!(ran, vec!["/c/a", "/c/b", "/c/c"]);
    assert_eq!(echoed, vec!["a: err", "b: err", "c: err"]);
    assert_eq!(noted.len(), 1);
    assert!(matches!(&noted[0], Notice::Signalled(script) if script == "/c/b"));
    assert!(matches!(m, Match::Found(script, _) if script == "/c/c"));
}

#[test]
fn search_that_nobody_claims_is_exhausted() {
    let (ran, m) = search(
        &["/c/c", "/c/a", "/c/b"],
        vec![exited(Some(2)), exited(None), exited(Some(2))],
    );
    assert_eq!(ran, vec!["/c/a", "/c/b", "/c/c"]);
    assert!(matches!(m, Match::Exhausted));
}

#[test]
fn search_of_an_empty_directory_is_exhausted() {
    let (ran, m) = search(&[], vec![]);
    assert!(ran.is_empty());
    assert!(matches!(m, Match::Exhausted));
}

#[test]
fn search_of_what_is_no_directory_is_exhausted() {
    let mut session = Callout::new();
    let scan = session.invoke_first_matching_script(
        &device(),
        Event::Pre,
        Action::Start,
        Reply::Listing(None),
    );
    assert!(matches!(scan.found, Match::Exhausted));
}

#[test]
fn search_for_a_device_of_unknown_type_runs_nothing() {
    let dev = Device { uuid: "u".to_string(), mdev_type: None, parent: None };
    let mut session = Callout::new();
    let scan = session.invoke_first_matching_script(
        &dev,
        Event::Get,
        Action::Attributes,
        listing(&["/c/a"]),
    );
    assert!(matches!(scan.found, Match::Exhausted));
}

#[test]
fn search_is_the_same_however_the_directory_is_read() {
    let answers = || vec![exited(Some(2)), exited(Some(0))];
    let (ran_one, _) = search(&["/c/x", "/c/m", "/c/a"], answers());
    let (ran_other, _) = search(&["/c/a", "/c/x", "/c/m"], answers());
    assert_eq!(ran_one, vec!["/c/a", "/c/m"]);
    assert_eq!(ran_one, ran_other);
}

#[test]
fn an_answer_nobody_asked_for_finds_nothing() {
    let mut session = Callout::new();
    let scan = session.invoke_first_matching_script(
        &device(),
        Event::Pre,
        Action::Start,
        exited(Some(0)),
    );
    assert!(matches!(scan.found, Match::Exhausted));
    assert_eq!(scan.echo, None);
    let scan = session.invoke_first_matching_script(
        &device(),
        Event::Pre,
        Action::Start,
        Reply::Acted(true),
    );
    assert!(matches!(scan.found, Match::Exhausted));
}

#[test]
fn invoke_script_tells_the_state_of_the_session() {
    let session = Callout::new();
    let run = session.invoke_script(&device(), &"/c/a".to_string(), Event::Get, Action::Attributes);
    assert_eq!(run.script, "/c/a");
    assert_eq!(
        run.args,
        vec![
            "-t",
            "nvidia-11",
            "-e",
            "get",
            "-a",
            "attributes",
            "-s",
            "none",
            "-u",
            "c07ab7b2-8aa2-427a-91c6-ffc949bb77f9",
            "-p",
            "0000:00:02.0"
        ]
    );
    assert_eq!(run.stdin, Payload::Empty);
    let run = session.invoke_script(&device(), &"/c/a".to_string(), Event::Notify, Action::Stop);
    assert_eq!(run.stdin, Payload::Device);
    assert_eq!(run.args[3], "notify");
    assert_eq!(run.args[5], "stop");
}
