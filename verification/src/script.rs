//! One run of one script: whom it is run for, what it is handed, what came
//! back, and what its exit status says.

use crate::order::texts;
use crate::tokens::{Action, Event, State};
use vstd::prelude::*;
use vstd::string::*;

verus! {

/// What the scripts are told of the device an action is performed on.
#[derive(Clone, Debug, PartialEq, Eq)]
pub struct Device {
    pub uuid: String,
    pub mdev_type: Option<String>,
    pub parent: Option<String>,
}

/// The model of a device.
pub struct DeviceView {
    pub uuid: Seq<char>,
    pub mdev_type: Option<Seq<char>>,
    pub parent: Option<Seq<char>>,
}

/// The text of a string that may be absent.
pub open spec fn option_text(s: Option<String>) -> Option<Seq<char>> {
    match s {
        Some(s) => Some(s@),
        None => None,
    }
}

impl View for Device {
    type V = DeviceView;

    open spec fn view(&self) -> DeviceView {
        DeviceView {
            uuid: self.uuid@,
            mdev_type: option_text(self.mdev_type),
            parent: option_text(self.parent),
        }
    }
}

impl DeviceView {
    /// A script can be run for the device only if both its type and its
    /// parent are known.
    pub open spec fn addressable(self) -> bool {
        self.mdev_type is Some && self.parent is Some
    }
}

/// What a script that was run left behind. `code` is `None` where a signal
/// ended it.
#[derive(Clone, Debug, PartialEq, Eq)]
pub struct Output {
    pub code: Option<i32>,
    pub stdout: String,
    pub stderr: String,
}

/// The model of what a script left behind.
pub struct OutputView {
    pub code: Option<i32>,
    pub stdout: Seq<char>,
    pub stderr: Seq<char>,
}

impl View for Output {
    type V = OutputView;

    open spec fn view(&self) -> OutputView {
        OutputView { code: self.code, stdout: self.stdout@, stderr: self.stderr@ }
    }
}

/// What a script reads on its standard input.
#[derive(Clone, Copy, Debug, PartialEq, Eq, Structural)]
pub enum Payload {
    /// Nothing.
    Empty,
    /// The device in its compact JSON form.
    Device,
}

/// A script to run, with its arguments and its input.
#[derive(Clone, Debug, PartialEq, Eq)]
pub struct Invocation {
    pub script: String,
    pub args: Vec<String>,
    pub stdin: Payload,
}

/// The model of a run.
pub struct InvocationView {
    pub script: Seq<char>,
    pub args: Seq<Seq<char>>,
    pub stdin: Payload,
}

impl View for Invocation {
    type V = InvocationView;

    open spec fn view(&self) -> InvocationView {
        InvocationView { script: self.script@, args: texts(self.args@), stdin: self.stdin }
    }
}

/// The argument vector: six flags, each followed by its value.
pub open spec fn arguments(
    mdev_type: Seq<char>,
    uuid: Seq<char>,
    parent: Seq<char>,
    event: Event,
    action: Action,
    state: State,
) -> Seq<Seq<char>> {
    seq![
        "-t"@,
        mdev_type,
        "-e"@,
        event.token(),
        "-a"@,
        action.token(),
        "-s"@,
        state.token(),
        "-u"@,
        uuid,
        "-p"@,
        parent,
    ]
}

/// Two runs for one device and one action are told apart by the event and
/// the state alone: their argument vectors have the same length and agree
/// everywhere but in the value of `-e` and the value of `-s`, and there they
/// differ where the events or the states do.
pub proof fn law_arguments_tell_event_and_state(
    mdev_type: Seq<char>,
    uuid: Seq<char>,
    parent: Seq<char>,
    action: Action,
    first: (Event, State),
    second: (Event, State),
)
    ensures
        ({
            let a = arguments(mdev_type, uuid, parent, first.0, action, first.1);
            let b = arguments(mdev_type, uuid, parent, second.0, action, second.1);
            &&& a.len() == 12
            &&& b.len() == 12
            &&& forall|k: int| 0 <= k < 12 && k != 3 && k != 7 ==> a[k] == b[k]
            &&& a[3] == b[3] <==> first.0 == second.0
            &&& a[7] == b[7] <==> first.1 == second.1
        }),
{
    if first.0 != second.0 {
        crate::tokens::law_event_tokens_differ(first.0, second.0);
    }
    if first.1 != second.1 {
        crate::tokens::law_state_tokens_differ(first.1, second.1);
    }
}

/// A query for attributes is handed nothing; every other event is handed
/// the device.
pub open spec fn payload_for(event: Event) -> Payload {
    if event == Event::Get {
        Payload::Empty
    } else {
        Payload::Device
    }
}

/// The run of `script` for a device that is `addressable`.
pub open spec fn invocation(
    script: Seq<char>,
    dev: DeviceView,
    event: Event,
    action: Action,
    state: State,
) -> InvocationView {
    InvocationView {
        script,
        args: arguments(
            dev.mdev_type.unwrap(),
            dev.uuid,
            dev.parent.unwrap(),
            event,
            action,
            state,
        ),
        stdin: payload_for(event),
    }
}

/// Puts together the run of a script: its path, its argument vector and what
/// it is to read.
pub fn invoke_callout_script(
    script: &String,
    mdev_type: String,
    uuid: String,
    parent: String,
    event: Event,
    action: Action,
    state: State,
    stdin: Payload,
) -> (run: Invocation)
    ensures
        run@.script == script@,
        run@.args == arguments(mdev_type@, uuid@, parent@, event, action, state),
        run@.stdin == stdin,
{
    let mut args: Vec<String> = Vec::new();
    args.push(String::from_str("-t"));
    args.push(mdev_type);
    args.push(String::from_str("-e"));
    args.push(event.to_string());
    args.push(String::from_str("-a"));
    args.push(action.to_string());
    args.push(String::from_str("-s"));
    args.push(state.to_string());
    args.push(String::from_str("-u"));
    args.push(uuid);
    args.push(String::from_str("-p"));
    args.push(parent);
    assert(texts(args@) =~= arguments(mdev_type@, uuid@, parent@, event, action, state));
    Invocation { script: script.clone(), args, stdin }
}

/// What an exit status says of the script that returned it.
#[derive(Clone, Copy, Debug, PartialEq, Eq, Structural)]
pub enum Verdict {
    /// The script takes the event on itself, whether it then succeeded or not.
    Claimed,
    /// The script is not meant for this device: exit status 2.
    Declined,
    /// The script did not run to its end: a signal ended it.
    Skipped,
}

/// The verdict on a script that was started; `code` is `None` where a signal
/// ended it.
pub open spec fn verdict_of(code: Option<i32>) -> Verdict {
    match code {
        None => Verdict::Skipped,
        Some(n) => if n == 2 {
            Verdict::Declined
        } else {
            Verdict::Claimed
        },
    }
}

/// The verdict on a script that was started.
pub fn verdict(code: Option<i32>) -> (v: Verdict)
    ensures
        v == verdict_of(code),
{
    match code {
        None => Verdict::Skipped,
        Some(n) => if n == 2 {
            Verdict::Declined
        } else {
            Verdict::Claimed
        },
    }
}

/// What `std::path::Path::file_name` gives for a path, read as text.
pub uninterp spec fn path_file_name(path: Seq<char>) -> Option<Seq<char>>;

/// Calls `Path::file_name` on the path and hands back the name as text. On
/// the platform the library is built for, the name is a function of the
/// path alone: the one named by `path_file_name`.
#[verifier::external_body]
fn file_name(path: &str) -> (name: Option<String>)
    ensures
        option_text(name) == path_file_name(path@),
{
    match std::path::Path::new(path).file_name() {
        Some(name) => Some(name.to_string_lossy().into_owned()),
        None => None,
    }
}

/// The name a script goes by before the operator.
pub open spec fn script_name(path: Seq<char>) -> Seq<char> {
    match path_file_name(path) {
        Some(name) => name,
        None => "unknown script name"@,
    }
}

/// The line that is passed on to the operator for what a script wrote to its
/// standard error: nothing where it wrote nothing, else its name, a colon and
/// a blank, and what it wrote.
pub open spec fn report(script: Seq<char>, stderr: Seq<char>) -> Option<Seq<char>> {
    if stderr.len() == 0 {
        None
    } else {
        Some(script_name(script) + ": "@ + stderr)
    }
}

/// What is to be shown to the operator of a script's standard error.
pub fn print_err(output: &Output, script: &String) -> (line: Option<String>)
    ensures
        option_text(line) == report(script@, output@.stderr),
{
    if output.stderr.as_str().is_empty() {
        None
    } else {
        let name = match file_name(script.as_str()) {
            Some(name) => name,
            None => String::from_str("unknown script name"),
        };
        let line = name.concat(": ").concat(output.stderr.as_str());
        Some(line)
    }
}

} // verus!
