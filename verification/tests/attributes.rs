use mdevctl::callouts::{Callout, Notice, Reply, Request};
use mdevctl::error::CalloutError;
use mdevctl::query::{attributes_of, Query};
use mdevctl::script::{Device, Output, Payload};
use serde_json::Value;
use std::collections::HashMap;

fn device() -> Device {
    Device {
        uuid: "5269fe7a-18d1-48ad-88e1-3fda4176f536".to_string(),
        mdev_type: Some("vfio_ap-passthrough".to_string()),
        parent: Some("matrix".to_string()),
    }
}

struct World {
    dirs: HashMap<String, Vec<String>>,
    scripts: HashMap<String, Output>,
    requests: Vec<String>,
    noted: Vec<Notice>,
}

impl World {
    fn new() -> World {
        World {
            dirs: HashMap::new(),
            scripts: HashMap::new(),
            requests: Vec::new(),
            noted: Vec::new(),
        }
    }

    fn dir(&mut self, dir: &str, entries: &[&str]) {
        self.dirs.insert(dir.to_string(), entries.iter().map(|e| e.to_string()).collect());
    }

    fn script(&mut self, path: &str, code: Option<i32>, stdout: &str, stderr: &str) {
        self.scripts.insert(
            path.to_string(),
            Output { code, stdout: stdout.to_string(), stderr: stderr.to_string() },
        );
    }

    fn answer(&mut self, request: Request) -> Reply {
        match request {
            Request::List(dir) => {
                self.requests.push(format!("list {}", dir));
                Reply::Listing(self.dirs.get(&dir).cloned())
            }
            Request::Run(run) => {
                assert_eq!(run.stdin, Payload::Empty);
                assert_eq!(
                    run.args,
                    vec![
                        "-t",
                        "vfio_ap-passthrough",
                        "-e",
                        "get",
                        "-a",
                        "attributes",
                        "-s",
                        "none",
                        "-u",
                        "5269fe7a-18d1-48ad-88e1-3fda4176f536",
                        "-p",
                        "matrix"
                    ]
                );
                self.requests.push(format!("run {}", run.script));
                Reply::Ran(self.scripts.get(&run.script).cloned())
            }
            Request::Act => panic!("a query performs no action"),
        }
    }
}

fn query(world: &mut World, dirs: &[&str]) -> (Vec<String>, Result<Value, CalloutError>) {
    let dirs: Vec<String> = dirs.iter().map(|d| d.to_string()).collect();
    let dev = device();
    let mut echoed = Vec::new();
    let mut q = Callout::new().get_attributes(&dirs, &dev, None);
    loop {
        match q {
            Query::Ask { session, echo, notice, request } => {
                echoed.extend(echo);
                world.noted.extend(notice);
                let reply = world.answer(request);
                q = session.get_attributes(&dirs, &dev, Some(reply));
            }
            Query::Done { echo, notice, result } => {
                echoed.extend(echo);
                world.noted.extend(notice);
                return (echoed, result);
            }
        }
    }
}

fn one_script(stdout: &str) -> (Vec<String>, Result<Value, CalloutError>) {
    let mut world = World::new();
    world.dir("/c", &["/c/attrs"]);
    world.script("/c/attrs", Some(0), stdout, "chatter");
    query(&mut world, &["/c"])
}

#[test]
fn list_of_one_empty_object_means_no_attributes() {
    let (echoed, result) = one_script("[{}]");
    assert_eq!(echoed, vec!["attrs: chatter"]);
    assert_eq!(result.unwrap(), Value::Array(Vec::new()));
}

#[test]
fn empty_output_is_null() {
    let (echoed, result) = one_script("");
    assert_eq!(echoed, vec!["attrs: chatter"]);
    assert_eq!(result.unwrap(), Value::Null);
}

#[test]
fn no_claiming_script_is_null() {
    let mut world = World::new();
    world.dir("/c1", &["/c1/other"]);
    world.dir("/c2", &[]);
    world.script("/c1/other", Some(2), "[{\"a\":\"b\"}]", "");
    let (echoed, result) = query(&mut world, &["/c1", "/none", "/c2"]);
    assert!(echoed.is_empty());
    assert_eq!(result.unwrap(), Value::Null);
    assert_eq!(world.requests, vec!["list /c1", "run /c1/other", "list /none", "list /c2"]);
}

#[test]
fn no_directory_is_null() {
    let mut world = World::new();
    let (echoed, result) = query(&mut world, &[]);
    assert!(echoed.is_empty());
    assert_eq!(result.unwrap(), Value::Null);
    assert!(world.requests.is_empty());
}

#[test]
fn output_is_read_as_json() {
    let (_, result) = one_script("[{\"assign_adapter\":\"5\"},{\"assign_domain\":\"0xab\"}]");
    let mut first = serde_json::Map::new();
    first.insert("assign_adapter".to_string(), Value::String("5".to_string()));
    let mut second = serde_json::Map::new();
    second.insert("assign_domain".to_string(), Value::String("0xab".to_string()));
    assert_eq!(
        result.unwrap(),
        Value::Array(vec![Value::Object(first), Value::Object(second)])
    );
}

#[test]
fn only_the_exact_text_is_normalized() {
    let (_, result) = one_script("[{}]\n");
    assert_eq!(result.unwrap(), Value::Array(vec![Value::Object(serde_json::Map::new())]));
    let (_, result) = one_script("[{} ]");
    assert_eq!(result.unwrap(), Value::Array(vec![Value::Object(serde_json::Map::new())]));
    let (_, result) = one_script("[]");
    assert_eq!(result.unwrap(), Value::Array(Vec::new()));
    let (_, result) = one_script("null");
    assert_eq!(result.unwrap(), Value::Null);
}

#[test]
fn output_that_is_not_json_is_a_failure() {
    let (echoed, result) = one_script("attributes: none");
    assert_eq!(echoed, vec!["attrs: chatter"]);
    assert!(matches!(result, Err(CalloutError::InvalidJSON(_))));
    let (_, result) = one_script(" ");
    assert!(matches!(result, Err(CalloutError::InvalidJSON(_))));
}

#[test]
fn failing_script_is_a_failure_and_its_standard_error_is_shown() {
    let mut world = World::new();
    world.dir("/c1", &["/c1/b", "/c1/a"]);
    world.dir("/c2", &["/c2/never"]);
    world.script("/c1/a", Some(2), "", "not mine");
    world.script("/c1/b", Some(1), "[]", "cannot tell\n");
    world.script("/c2/never", Some(0), "[]", "");
    let (echoed, result) = query(&mut world, &["/c1", "/c2"]);
    assert_eq!(echoed, vec!["a: not mine", "b: cannot tell\n"]);
    match result {
        Err(CalloutError::InvocationFailure(script, code)) => {
            assert_eq!(script, "/c1/b");
            assert_eq!(code, Some(1));
        }
        other => panic!("unexpected {:?}", other),
    }
    assert_eq!(world.requests, vec!["list /c1", "run /c1/a", "run /c1/b"]);
}

#[test]
fn first_directory_with_an_answer_wins() {
    let mut world = World::new();
    world.dir("/c1", &["/c1/signalled"]);
    world.dir("/c2", &["/c2/answers"]);
    world.dir("/c3", &["/c3/never"]);
    world.script("/c1/signalled", None, "[1]", "");
    world.script("/c2/answers", Some(0), "[2]", "");
    world.script("/c3/never", Some(0), "[3]", "");
    let (_, result) = query(&mut world, &["/c1", "/c2", "/c3"]);
    assert_eq!(result.unwrap(), Value::Array(vec![Value::Number(2.into())]));
    assert_eq!(
        world.requests,
        vec!["list /c1", "run /c1/signalled", "list /c2", "run /c2/answers"]
    );
    assert_eq!(world.noted.len(), 1);
    assert!(matches!(&world.noted[0], Notice::Signalled(script) if script == "/c1/signalled"));
}

#[test]
fn script_that_cannot_be_started_fails_the_query() {
    let mut world = World::new();
    world.dir("/c1", &["/c1/broken"]);
    world.dir("/c2", &["/c2/never"]);
    world.script("/c2/never", Some(0), "[3]", "");
    let (echoed, result) = query(&mut world, &["/c1", "/c2"]);
    assert!(echoed.is_empty());
    assert!(matches!(
        result,
        Err(CalloutError::InvocationFailure(script, None)) if script == "/c1/broken"
    ));
    assert_eq!(world.requests, vec!["list /c1", "run /c1/broken"]);
}

#[test]
fn device_of_unknown_type_has_no_attributes() {
    let mut world = World::new();
    world.dir("/c", &["/c/attrs"]);
    world.script("/c/attrs", Some(0), "[1]", "");
    let dirs = vec!["/c".to_string()];
    let dev = Device { uuid: "u".to_string(), mdev_type: None, parent: None };
    let mut q = Callout::new().get_attributes(&dirs, &dev, None);
    let result = loop {
        match q {
            Query::Ask { session, echo: _, notice: _, request } => {
                assert!(matches!(request, Request::List(_)));
                let reply = world.answer(request);
                q = session.get_attributes(&dirs, &dev, Some(reply));
            }
            Query::Done { echo: _, notice: _, result } => break result,
        }
    };
    assert_eq!(result.unwrap(), Value::Null);
}

#[test]
fn parse_attribute_output_by_exit_status() {
    let path = "/c/attrs".to_string();
    let ok = Output { code: Some(0), stdout: "{\"k\":true}".to_string(), stderr: "noise".to_string() };
    let result = Callout::parse_attribute_output(&path, ok);
    let mut object = serde_json::Map::new();
    object.insert("k".to_string(), Value::Bool(true));
    assert_eq!(result.unwrap(), Value::Object(object));
    let signalled = Output { code: None, stdout: "[]".to_string(), stderr: "killed".to_string() };
    let result = Callout::parse_attribute_output(&path, signalled);
    assert!(matches!(result, Err(CalloutError::InvocationFailure(script, None)) if script == "/c/attrs"));
}

#[test]
fn attributes_of_a_parse() {
    let parsed = serde_json::from_str::<Value>("[true]");
    assert_eq!(attributes_of(parsed).unwrap(), Value::Array(vec![Value::Bool(true)]));
    let parsed = serde_json::from_str::<Value>("[true");
    assert!(matches!(attributes_of(parsed), Err(CalloutError::InvalidJSON(_))));
}
