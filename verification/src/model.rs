//! The protocol as mathematics. A session never runs anything itself: it
//! says what is to be done next, is told what came of it, and moves on. Here
//! each such move is a function from the session and the answer to the next
//! session and the next demand; the executable moves are proved to compute
//! exactly these.

use crate::error::CalloutErrorView;
use crate::json::json_from_str;
use crate::order::sorted_paths;
use crate::script::{
    invocation, report, verdict_of, DeviceView, InvocationView, OutputView, Verdict,
};
use crate::tokens::{Action, Event, State};
use vstd::prelude::*;

verus! {

/// What a session asks of whoever drives it.
pub enum RequestView {
    /// List the entries of this directory.
    List(Seq<char>),
    /// Run this script.
    Run(InvocationView),
    /// Perform the action itself.
    Act,
}

/// What came of a request.
pub enum ReplyView {
    /// The paths of a directory's entries as they were read; `None` where
    /// the path is no directory or cannot be read.
    Listing(Option<Seq<Seq<char>>>),
    /// What a script left behind; `None` where it could not be started or
    /// its input could not be written.
    Ran(Option<OutputView>),
    /// Whether the action succeeded.
    Acted(bool),
}

/// The request a session has not been answered yet.
#[derive(Clone, Copy, Debug, PartialEq, Eq, Structural)]
pub enum Waiting {
    Nothing,
    /// The listing of a directory.
    Listing,
    /// The run of the entry `at` of `paths`.
    Run,
    /// The run of the script the session has settled on.
    Sticky,
    /// The action.
    Action,
}

/// The part of the sequence a session is in.
#[derive(Clone, Copy, Debug, PartialEq, Eq, Structural)]
pub enum Phase {
    Pre,
    Post,
    Notify,
}

/// The model of a session.
pub struct CalloutView {
    /// What has become of the action.
    pub state: State,
    /// The script the session has settled on.
    pub script: Option<Seq<char>>,
    pub phase: Phase,
    /// The directory at hand, by its place in the list that is gone through.
    pub dir: nat,
    pub waiting: Waiting,
    /// The entries of the directory at hand, in the order of trial.
    pub paths: Seq<Seq<char>>,
    /// The entry at hand.
    pub at: nat,
    /// The failure before the action that ended the sequence early.
    pub failure: Option<CalloutErrorView>,
}

impl CalloutView {
    /// A session as it is created.
    pub open spec fn fresh() -> CalloutView {
        CalloutView {
            state: State::NotRun,
            script: None,
            phase: Phase::Pre,
            dir: 0,
            waiting: Waiting::Nothing,
            paths: Seq::empty(),
            at: 0,
            failure: None,
        }
    }

    /// The session with no request left open.
    pub open spec fn settle(self) -> CalloutView {
        CalloutView { waiting: Waiting::Nothing, ..self }
    }

    /// The request to run `script` for `event` in the state the session has
    /// reached.
    pub open spec fn run(self, script: Seq<char>, dev: DeviceView, event: Event, action: Action)
        -> RequestView {
        RequestView::Run(invocation(script, dev, event, action, self.state))
    }
}

/// Something the driver may want to put in its log.
pub enum NoticeView {
    /// A signal ended the run of this script; the search goes on.
    Signalled(Seq<char>),
    /// The event before the action failed like this, and the operator has
    /// the action performed nevertheless.
    Overridden(CalloutErrorView),
    /// The event after the action failed like this, which changes nothing.
    Discarded(CalloutErrorView),
}

/// The script whose run a session awaits, if it awaits one: the script it
/// has settled on, or the entry at hand of the directory at hand.
pub open spec fn awaited(c: CalloutView) -> Option<Seq<char>> {
    if c.waiting == Waiting::Sticky {
        c.script
    } else if c.waiting == Waiting::Run && c.at < c.paths.len() {
        Some(c.paths[c.at as int])
    } else {
        None
    }
}

/// The line to pass on to the operator when `reply` comes in: what the
/// script whose run was awaited wrote to its standard error, whatever else
/// came of the run.
pub open spec fn heard(c: CalloutView, reply: ReplyView) -> Option<Seq<char>> {
    match (awaited(c), reply) {
        (Some(script), ReplyView::Ran(Some(output))) => report(script, output.stderr),
        _ => None,
    }
}

/// What the search through one directory has come to.
pub enum MatchView {
    /// The next entry is to be run.
    Ask(RequestView),
    /// This script took the event, and left this behind.
    Found(Seq<char>, OutputView),
    /// This script could not be started.
    Unstartable(Seq<char>),
    /// No entry took the event.
    Exhausted,
}

/// What a move of the search hands out.
pub struct ScanView {
    pub echo: Option<Seq<char>>,
    pub notice: Option<NoticeView>,
    pub found: MatchView,
}

/// The search from entry `at` of `paths` on: that entry is run, if there is
/// one.
pub open spec fn scan_from(
    c: CalloutView,
    dev: DeviceView,
    event: Event,
    action: Action,
    paths: Seq<Seq<char>>,
    at: nat,
) -> (CalloutView, MatchView) {
    if at < paths.len() {
        (
            CalloutView { waiting: Waiting::Run, paths, at, ..c },
            MatchView::Ask(c.run(paths[at as int], dev, event, action)),
        )
    } else {
        (CalloutView { waiting: Waiting::Nothing, paths, at, ..c }, MatchView::Exhausted)
    }
}

/// One move of the search through a directory. A listing starts it, in the
/// order of trial; nothing is searched for a device of unknown type. The
/// run of an entry ends it where the script claims the event, and where the
/// script could not be started; a script that declines, or that a signal
/// ended, leads on to the next entry. Any other answer, and the answer to a
/// run that was not asked for, ends it with nothing found.
pub open spec fn first_matching_script(
    c: CalloutView,
    dev: DeviceView,
    event: Event,
    action: Action,
    reply: ReplyView,
) -> (CalloutView, ScanView) {
    if dev.mdev_type is None {
        (c.settle(), ScanView { echo: None, notice: None, found: MatchView::Exhausted })
    } else {
        match reply {
            ReplyView::Listing(Some(entries)) => {
                let (begun, found) = scan_from(c, dev, event, action, sorted_paths(entries), 0);
                (begun, ScanView { echo: None, notice: None, found })
            },
            ReplyView::Ran(ran) => if c.waiting == Waiting::Run && c.at < c.paths.len() {
                let script = c.paths[c.at as int];
                match ran {
                    None => (
                        c.settle(),
                        ScanView { echo: None, notice: None, found: MatchView::Unstartable(script) },
                    ),
                    Some(output) => {
                        let echo = report(script, output.stderr);
                        if verdict_of(output.code) == Verdict::Claimed {
                            (
                                c.settle(),
                                ScanView {
                                    echo,
                                    notice: None,
                                    found: MatchView::Found(script, output),
                                },
                            )
                        } else {
                            let (next, found) = scan_from(c, dev, event, action, c.paths, c.at + 1);
                            let notice = if output.code is None {
                                Some(NoticeView::Signalled(script))
                            } else {
                                None
                            };
                            (next, ScanView { echo, notice, found })
                        }
                    },
                }
            } else {
                (c.settle(), ScanView { echo: None, notice: None, found: MatchView::Exhausted })
            },
            _ => (c.settle(), ScanView { echo: None, notice: None, found: MatchView::Exhausted }),
        }
    }
}

/// What an attempt has come to after one move: a line for the operator, if
/// the script that was run wrote one, something for the log, and either
/// the next request or how the attempt ended.
pub struct TurnView {
    pub echo: Option<Seq<char>>,
    pub notice: Option<NoticeView>,
    pub next: NextView,
}

/// How an attempt goes on, or how it ended.
pub enum NextView {
    Ask(RequestView),
    Settled(Result<(), CalloutErrorView>),
}

impl TurnView {
    /// The attempt goes on with `request`.
    pub open spec fn ask(request: RequestView) -> TurnView {
        TurnView { echo: None, notice: None, next: NextView::Ask(request) }
    }

    /// The attempt found no script to settle the event.
    pub open spec fn no_match() -> TurnView {
        TurnView {
            echo: None,
            notice: None,
            next: NextView::Settled(Err(CalloutErrorView::NoMatchingScript)),
        }
    }
}

/// What the exit status of the script that took the event means for the
/// event: status 0 lets it pass, any other status fails it. A script that a
/// signal ended has settled nothing.
pub open spec fn resolve(script: Seq<char>, code: Option<i32>) -> Result<(), CalloutErrorView> {
    match code {
        Some(n) => if n == 0 {
            Ok(())
        } else {
            Err(CalloutErrorView::InvocationFailure(script, Some(n)))
        },
        None => Err(CalloutErrorView::NoMatchingScript),
    }
}

/// The failure of a script that could not be started.
pub open spec fn unstartable(script: Seq<char>) -> CalloutErrorView {
    CalloutErrorView::InvocationFailure(script, None)
}

/// One move of the attempt to settle an event in one directory.
///
/// It begins (`reply` is `None`) with the run of the script the session has
/// settled on, if there is one, and else with the listing of the directory.
/// The settled script answers for the event by its exit status. A listing
/// is searched for the first script that takes the event; that script
/// becomes the one the session has settled on, and answers likewise.
/// A script that could not be started fails the event, and the session
/// settles on no script for it. Where the answer is not that of a run, no
/// script has settled the event.
pub open spec fn callout_dir(
    c: CalloutView,
    dev: DeviceView,
    event: Event,
    action: Action,
    dir: Seq<char>,
    reply: Option<ReplyView>,
) -> (CalloutView, TurnView) {
    match reply {
        None => match c.script {
            Some(script) => (
                CalloutView { waiting: Waiting::Sticky, ..c },
                TurnView::ask(c.run(script, dev, event, action)),
            ),
            None => (
                CalloutView { waiting: Waiting::Listing, ..c },
                TurnView::ask(RequestView::List(dir)),
            ),
        },
        Some(reply) => if c.waiting == Waiting::Sticky {
            match (c.script, reply) {
                (Some(script), ReplyView::Ran(Some(output))) => (
                    c.settle(),
                    TurnView {
                        echo: report(script, output.stderr),
                        notice: None,
                        next: NextView::Settled(resolve(script, output.code)),
                    },
                ),
                (Some(script), ReplyView::Ran(None)) => (
                    c.settle(),
                    TurnView {
                        echo: None,
                        notice: None,
                        next: NextView::Settled(Err(unstartable(script))),
                    },
                ),
                _ => (c.settle(), TurnView::no_match()),
            }
        } else if c.waiting == Waiting::Listing || c.waiting == Waiting::Run {
            let (found, scan) = first_matching_script(c, dev, event, action, reply);
            match scan.found {
                MatchView::Ask(request) => (
                    found,
                    TurnView { echo: scan.echo, notice: scan.notice, next: NextView::Ask(request) },
                ),
                MatchView::Found(script, output) => (
                    CalloutView { script: Some(script), ..found },
                    TurnView {
                        echo: scan.echo,
                        notice: scan.notice,
                        next: NextView::Settled(resolve(script, output.code)),
                    },
                ),
                MatchView::Unstartable(script) => (
                    found,
                    TurnView {
                        echo: scan.echo,
                        notice: scan.notice,
                        next: NextView::Settled(Err(unstartable(script))),
                    },
                ),
                MatchView::Exhausted => (
                    found,
                    TurnView {
                        echo: scan.echo,
                        notice: scan.notice,
                        next: NextView::Settled(Err(CalloutErrorView::NoMatchingScript)),
                    },
                ),
            }
        } else {
            (c.settle(), TurnView::no_match())
        },
    }
}

/// One move of the attempt to settle an event in the directories for
/// callout scripts, taken in their order.
///
/// It begins (`reply` is `None`) at the first directory. A directory that
/// has no script for the event leads on to the next; the first that passes
/// or fails the event ends the attempt. Where every directory has been
/// tried in vain the event passes.
pub open spec fn callout(
    c: CalloutView,
    dirs: Seq<Seq<char>>,
    dev: DeviceView,
    event: Event,
    action: Action,
    reply: Option<ReplyView>,
) -> (CalloutView, TurnView) {
    let start = if reply is None {
        CalloutView { dir: 0, ..c }
    } else {
        c
    };
    if start.dir < dirs.len() {
        let (tried, turn) = callout_dir(start, dev, event, action, dirs[start.dir as int], reply);
        if turn.next == NextView::Settled(Err(CalloutErrorView::NoMatchingScript)) {
            let onward = CalloutView { dir: start.dir + 1, ..tried };
            if onward.dir < dirs.len() {
                let (begun, first) = callout_dir(
                    onward,
                    dev,
                    event,
                    action,
                    dirs[onward.dir as int],
                    None,
                );
                (begun, TurnView { next: first.next, ..turn })
            } else {
                (onward, TurnView { next: NextView::Settled(Ok(())), ..turn })
            }
        } else {
            (tried, turn)
        }
    } else {
        (start.settle(), TurnView { echo: None, notice: None, next: NextView::Settled(Ok(())) })
    }
}

/// What a move of the notification hands out: a line for the operator, and
/// the next request, or `None` where the notification is over.
pub struct ToldView {
    pub echo: Option<Seq<char>>,
    pub request: Option<RequestView>,
}

/// The notification turns to directory `dir` of `dirs`: its listing is
/// asked for, if there is such a directory, and else the notification is
/// over.
pub open spec fn notify_from(c: CalloutView, dirs: Seq<Seq<char>>, dir: nat) -> (
    CalloutView,
    Option<RequestView>,
) {
    if dir < dirs.len() {
        (
            CalloutView { dir, waiting: Waiting::Listing, ..c },
            Some(RequestView::List(dirs[dir as int])),
        )
    } else {
        (c.settle(), None)
    }
}

/// How the notification goes on after the answer `reply`.
pub open spec fn notify_on(
    c: CalloutView,
    dirs: Seq<Seq<char>>,
    dev: DeviceView,
    action: Action,
    reply: ReplyView,
) -> (CalloutView, Option<RequestView>) {
    if c.waiting == Waiting::Listing {
        match reply {
            ReplyView::Listing(Some(entries)) => if entries.len() > 0 {
                (
                    CalloutView { waiting: Waiting::Run, paths: entries, at: 0, ..c },
                    Some(c.run(entries[0], dev, Event::Notify, action)),
                )
            } else {
                notify_from(c, dirs, c.dir + 1)
            },
            _ => notify_from(c, dirs, c.dir + 1),
        }
    } else if c.waiting == Waiting::Run {
        if c.at + 1 < c.paths.len() {
            (
                CalloutView { at: (c.at + 1) as nat, ..c },
                Some(c.run(c.paths[(c.at + 1) as int], dev, Event::Notify, action)),
            )
        } else {
            notify_from(c, dirs, c.dir + 1)
        }
    } else {
        (c.settle(), None)
    }
}

/// One move of the notification of every script of every directory of
/// `dirs`.
///
/// It begins (`reply` is `None`) at the first directory. Every entry of
/// every directory is run, in the order in which the listing gave them, and
/// whatever comes of a run the next entry follows.
pub open spec fn notify(
    c: CalloutView,
    dirs: Seq<Seq<char>>,
    dev: DeviceView,
    action: Action,
    reply: Option<ReplyView>,
) -> (CalloutView, ToldView) {
    match reply {
        None => {
            let (begun, request) = notify_from(c, dirs, 0);
            (begun, ToldView { echo: None, request })
        },
        Some(reply) => {
            let (next, request) = notify_on(c, dirs, dev, action, reply);
            (next, ToldView { echo: heard(c, reply), request })
        },
    }
}

/// Where the directories are, in models.
pub struct EnvironmentView {
    pub callout_dirs: Seq<Seq<char>>,
    pub notification_dirs: Seq<Seq<char>>,
}

/// What a sequence has come to after one move. `echo` is a line to pass on
/// to the operator, `notice` something for the log.
pub enum ProgressView {
    /// It goes on: `request` is to be answered to `session`.
    Ask {
        session: CalloutView,
        echo: Option<Seq<char>>,
        notice: Option<NoticeView>,
        request: RequestView,
    },
    /// It is over. `state` is what became of the action; `failure` is the
    /// failure of the event before it, where that kept the action from
    /// running.
    Done {
        echo: Option<Seq<char>>,
        notice: Option<NoticeView>,
        state: State,
        failure: Option<CalloutErrorView>,
    },
}

/// The notification begins; with it the sequence ends.
pub open spec fn conclude(
    c: CalloutView,
    env: EnvironmentView,
    dev: DeviceView,
    action: Action,
    echo: Option<Seq<char>>,
    notice: Option<NoticeView>,
) -> ProgressView {
    let (session, told) = notify(
        CalloutView { phase: Phase::Notify, ..c },
        env.notification_dirs,
        dev,
        action,
        None,
    );
    match told.request {
        Some(request) => ProgressView::Ask { session, echo, notice, request },
        None => ProgressView::Done { echo, notice, state: session.state, failure: session.failure },
    }
}

/// The action is asked for.
pub open spec fn proceed(c: CalloutView, echo: Option<Seq<char>>, notice: Option<NoticeView>)
    -> ProgressView {
    ProgressView::Ask {
        session: CalloutView { waiting: Waiting::Action, ..c },
        echo,
        notice,
        request: RequestView::Act,
    }
}

/// What follows a move of the event before the action. Where the event
/// passed, the action is next. Where it failed and the operator forces the
/// action, the action is next as well, and the failure is handed out for
/// the log. Where it failed and is not forced, the failure is kept, the
/// action and the event after it are left out, and the notification begins.
pub open spec fn after_pre(
    c: CalloutView,
    turn: TurnView,
    env: EnvironmentView,
    dev: DeviceView,
    action: Action,
    force: bool,
) -> ProgressView {
    match turn.next {
        NextView::Ask(request) => ProgressView::Ask {
            session: c,
            echo: turn.echo,
            notice: turn.notice,
            request,
        },
        NextView::Settled(Ok(_)) => proceed(c, turn.echo, turn.notice),
        NextView::Settled(Err(e)) => if force {
            proceed(c, turn.echo, Some(NoticeView::Overridden(e)))
        } else {
            conclude(CalloutView { failure: Some(e), ..c }, env, dev, action, turn.echo, turn.notice)
        },
    }
}

/// What follows a move of the event after the action: however that event
/// ends, the notification begins. A failure is handed out for the log and
/// changes nothing.
pub open spec fn after_post(
    c: CalloutView,
    turn: TurnView,
    env: EnvironmentView,
    dev: DeviceView,
    action: Action,
) -> ProgressView {
    match turn.next {
        NextView::Ask(request) => ProgressView::Ask {
            session: c,
            echo: turn.echo,
            notice: turn.notice,
            request,
        },
        NextView::Settled(Ok(_)) => conclude(c, env, dev, action, turn.echo, turn.notice),
        NextView::Settled(Err(e)) => conclude(
            c,
            env,
            dev,
            action,
            turn.echo,
            Some(NoticeView::Discarded(e)),
        ),
    }
}

/// One move of the sequence for one action: the event before it, the action,
/// the event after it, the notification.
///
/// It begins (`reply` is `None`) with the event before the action. The
/// answer to the action sets the state and begins the event after it; the
/// action counts as failed unless the answer says that it succeeded.
pub open spec fn invoke(
    c: CalloutView,
    env: EnvironmentView,
    dev: DeviceView,
    action: Action,
    force: bool,
    reply: Option<ReplyView>,
) -> ProgressView {
    match reply {
        None => {
            let (session, turn) = callout(
                CalloutView { phase: Phase::Pre, ..c },
                env.callout_dirs,
                dev,
                Event::Pre,
                action,
                None,
            );
            after_pre(session, turn, env, dev, action, force)
        },
        Some(reply) => if c.waiting == Waiting::Action {
            let state = if reply == ReplyView::Acted(true) {
                State::Success
            } else {
                State::Failure
            };
            let (session, turn) = callout(
                CalloutView { state, phase: Phase::Post, ..c },
                env.callout_dirs,
                dev,
                Event::Post,
                action,
                None,
            );
            after_post(session, turn, env, dev, action)
        } else {
            match c.phase {
                Phase::Pre => {
                    let (session, turn) = callout(
                        c,
                        env.callout_dirs,
                        dev,
                        Event::Pre,
                        action,
                        Some(reply),
                    );
                    after_pre(session, turn, env, dev, action, force)
                },
                Phase::Post => {
                    let (session, turn) = callout(
                        c,
                        env.callout_dirs,
                        dev,
                        Event::Post,
                        action,
                        Some(reply),
                    );
                    after_post(session, turn, env, dev, action)
                },
                Phase::Notify => {
                    let (session, told) = notify(
                        c,
                        env.notification_dirs,
                        dev,
                        action,
                        Some(reply),
                    );
                    match told.request {
                        Some(request) => ProgressView::Ask {
                            session,
                            echo: told.echo,
                            notice: None,
                            request,
                        },
                        None => ProgressView::Done {
                            echo: told.echo,
                            notice: None,
                            state: session.state,
                            failure: session.failure,
                        },
                    }
                },
            }
        },
    }
}

/// The text that is read as JSON for what a script wrote in answer to a
/// query: nothing written stands for `null`, and a list of one empty object
/// for the empty list.
pub open spec fn attributes_text(stdout: Seq<char>) -> Seq<char> {
    if stdout.len() == 0 {
        "null"@
    } else if stdout == "[{}]"@ {
        "[]"@
    } else {
        stdout
    }
}

/// The attributes, once the text has been read: the value it stands for,
/// or the failure to read it.
pub open spec fn attributes_from(parsed: Result<serde_json::Value, serde_json::Error>) -> Result<
    serde_json::Value,
    CalloutErrorView,
> {
    match parsed {
        Ok(value) => Ok(value),
        Err(e) => Err(CalloutErrorView::InvalidJSON(e)),
    }
}

/// What the script that took a query has answered: with exit status 0, what
/// its output reads as; with any other status, a failure.
pub open spec fn attributes(script: Seq<char>, output: OutputView) -> Result<
    serde_json::Value,
    CalloutErrorView,
> {
    if output.code == Some(0i32) {
        attributes_from(json_from_str(attributes_text(output.stdout)))
    } else {
        Err(CalloutErrorView::InvocationFailure(script, output.code))
    }
}

/// The attributes of a device that no script speaks for.
pub open spec fn no_attributes() -> Result<serde_json::Value, CalloutErrorView> {
    attributes_from(json_from_str("null"@))
}

/// What a query has come to in one directory after one move.
pub struct AnswerView {
    pub echo: Option<Seq<char>>,
    pub notice: Option<NoticeView>,
    pub next: FetchView,
}

/// How a query goes on in one directory, or how it ended there.
pub enum FetchView {
    Ask(RequestView),
    Settled(Result<serde_json::Value, CalloutErrorView>),
}

/// One move of the query for attributes in one directory.
///
/// It begins (`reply` is `None`) with a session of its own, which asks for
/// the listing of the directory. The listing is searched for the first
/// script that takes the query, and that script's answer is the
/// directory's. A script that could not be started fails the query.
pub open spec fn get_attributes_dir(
    c: CalloutView,
    dev: DeviceView,
    dir: Seq<char>,
    reply: Option<ReplyView>,
) -> (CalloutView, AnswerView) {
    match reply {
        None => (
            CalloutView { dir: c.dir, waiting: Waiting::Listing, ..CalloutView::fresh() },
            AnswerView { echo: None, notice: None, next: FetchView::Ask(RequestView::List(dir)) },
        ),
        Some(reply) => {
            let (found, scan) = first_matching_script(
                c,
                dev,
                Event::Get,
                Action::Attributes,
                reply,
            );
            let next = match scan.found {
                MatchView::Ask(request) => FetchView::Ask(request),
                MatchView::Found(script, output) => FetchView::Settled(attributes(script, output)),
                MatchView::Unstartable(script) => FetchView::Settled(Err(unstartable(script))),
                MatchView::Exhausted => FetchView::Settled(
                    Err(CalloutErrorView::NoMatchingScript),
                ),
            };
            (found, AnswerView { echo: scan.echo, notice: scan.notice, next })
        },
    }
}

/// What a query has come to after one move.
pub enum QueryView {
    Ask {
        session: CalloutView,
        echo: Option<Seq<char>>,
        notice: Option<NoticeView>,
        request: RequestView,
    },
    Done {
        echo: Option<Seq<char>>,
        notice: Option<NoticeView>,
        result: Result<serde_json::Value, CalloutErrorView>,
    },
}

/// One move of the query for the attributes of a device.
///
/// It begins (`reply` is `None`) at the first directory for callout scripts.
/// A directory without a script for the query leads on to the next; the
/// first answer, good or bad, is the result. Where no directory has a
/// script for the query, the device has no attributes.
pub open spec fn get_attributes(
    c: CalloutView,
    dirs: Seq<Seq<char>>,
    dev: DeviceView,
    reply: Option<ReplyView>,
) -> QueryView {
    let start = if reply is None {
        CalloutView { dir: 0, ..c }
    } else {
        c
    };
    if start.dir < dirs.len() {
        let (tried, answer) = get_attributes_dir(start, dev, dirs[start.dir as int], reply);
        match answer.next {
            FetchView::Ask(request) => QueryView::Ask {
                session: tried,
                echo: answer.echo,
                notice: answer.notice,
                request,
            },
            FetchView::Settled(Err(CalloutErrorView::NoMatchingScript)) => {
                let onward = CalloutView { dir: start.dir + 1, ..tried };
                if onward.dir < dirs.len() {
                    let (begun, first) = get_attributes_dir(
                        onward,
                        dev,
                        dirs[onward.dir as int],
                        None,
                    );
                    match first.next {
                        FetchView::Ask(request) => QueryView::Ask {
                            session: begun,
                            echo: answer.echo,
                            notice: answer.notice,
                            request,
                        },
                        FetchView::Settled(result) => QueryView::Done {
                            echo: answer.echo,
                            notice: answer.notice,
                            result,
                        },
                    }
                } else {
                    QueryView::Done {
                        echo: answer.echo,
                        notice: answer.notice,
                        result: no_attributes(),
                    }
                }
            },
            FetchView::Settled(result) => QueryView::Done {
                echo: answer.echo,
                notice: answer.notice,
                result,
            },
        }
    } else {
        QueryView::Done { echo: None, notice: None, result: no_attributes() }
    }
}

} // verus!
