//! The session that takes one lifecycle action through its scripts.
//!
//! A session runs nothing itself. Each of its moves takes the answer to what
//! it asked for last and says what is to be done next: list a directory, run
//! a script, perform the action. Whoever drives it does that work and comes
//! back with the answer.

use crate::error::{settled_view, CalloutError};
use crate::model::{
    after_post, after_pre, callout, callout_dir, conclude, first_matching_script, heard, invoke,
    notify, notify_from, notify_on, proceed, resolve, scan_from, CalloutView, EnvironmentView,
    MatchView, NextView, NoticeView, Phase, ProgressView, ReplyView, RequestView, ScanView,
    ToldView, TurnView, Waiting,
};
use crate::order::{sort_paths, texts};
use crate::script::{
    invocation, invoke_callout_script, option_text, print_err, verdict, Device, Invocation,
    Output, Payload, Verdict,
};
use crate::tokens::{Action, Event, State};
use vstd::prelude::*;
use vstd::string::*;

verus! {

/// Where the scripts are looked for, most specific directory first.
#[derive(Clone, Debug, PartialEq, Eq)]
pub struct Environment {
    pub callout_dirs: Vec<String>,
    pub notification_dirs: Vec<String>,
}

impl View for Environment {
    type V = EnvironmentView;

    open spec fn view(&self) -> EnvironmentView {
        EnvironmentView {
            callout_dirs: texts(self.callout_dirs@),
            notification_dirs: texts(self.notification_dirs@),
        }
    }
}

/// What a session asks of whoever drives it.
#[derive(Clone, Debug, PartialEq, Eq)]
pub enum Request {
    /// List the entries of this directory.
    List(String),
    /// Run this script.
    Run(Invocation),
    /// Perform the action itself.
    Act,
}

impl View for Request {
    type V = RequestView;

    open spec fn view(&self) -> RequestView {
        match self {
            Request::List(dir) => RequestView::List(dir@),
            Request::Run(run) => RequestView::Run(run@),
            Request::Act => RequestView::Act,
        }
    }
}

/// What came of a request.
#[derive(Clone, Debug, PartialEq, Eq)]
pub enum Reply {
    /// The paths of a directory's entries as they were read; `None` where
    /// the path is no directory or cannot be read.
    Listing(Option<Vec<String>>),
    /// What a script left behind; `None` where it could not be started or
    /// its input could not be written.
    Ran(Option<Output>),
    /// Whether the action succeeded.
    Acted(bool),
}

impl View for Reply {
    type V = ReplyView;

    open spec fn view(&self) -> ReplyView {
        match self {
            Reply::Listing(Some(entries)) => ReplyView::Listing(Some(texts(entries@))),
            Reply::Listing(None) => ReplyView::Listing(None),
            Reply::Ran(Some(output)) => ReplyView::Ran(Some(output@)),
            Reply::Ran(None) => ReplyView::Ran(None),
            Reply::Acted(ok) => ReplyView::Acted(*ok),
        }
    }
}

/// The model of an answer that may not have come yet.
pub open spec fn reply_view(reply: Option<Reply>) -> Option<ReplyView> {
    match reply {
        Some(reply) => Some(reply@),
        None => None,
    }
}

/// The model of a request that may be absent.
pub open spec fn request_view(request: Option<Request>) -> Option<RequestView> {
    match request {
        Some(request) => Some(request@),
        None => None,
    }
}

/// Something the driver may want to put in its log.
#[derive(Debug)]
pub enum Notice {
    /// A signal ended the run of this script; the search goes on.
    Signalled(String),
    /// The event before the action failed like this, and the operator has
    /// the action performed nevertheless.
    Overridden(CalloutError),
    /// The event after the action failed like this, which changes nothing.
    Discarded(CalloutError),
}

impl View for Notice {
    type V = NoticeView;

    open spec fn view(&self) -> NoticeView {
        match self {
            Notice::Signalled(script) => NoticeView::Signalled(script@),
            Notice::Overridden(e) => NoticeView::Overridden(e@),
            Notice::Discarded(e) => NoticeView::Discarded(e@),
        }
    }
}

/// The model of a notice that may be absent.
pub open spec fn notice_view(notice: Option<Notice>) -> Option<NoticeView> {
    match notice {
        Some(notice) => Some(notice@),
        None => None,
    }
}

/// What the search through one directory has come to.
#[derive(Debug)]
pub enum Match {
    /// The next entry is to be run.
    Ask(Request),
    /// This script took the event, and left this behind.
    Found(String, Output),
    /// This script could not be started.
    Unstartable(String),
    /// No entry took the event.
    Exhausted,
}

impl View for Match {
    type V = MatchView;

    open spec fn view(&self) -> MatchView {
        match self {
            Match::Ask(request) => MatchView::Ask(request@),
            Match::Found(script, output) => MatchView::Found(script@, output@),
            Match::Unstartable(script) => MatchView::Unstartable(script@),
            Match::Exhausted => MatchView::Exhausted,
        }
    }
}

/// What a move of the search hands out: a line for the operator, if the
/// script that was run wrote one to its standard error, something for the
/// log, and what the search has come to.
#[derive(Debug)]
pub struct Scan {
    pub echo: Option<String>,
    pub notice: Option<Notice>,
    pub found: Match,
}

impl View for Scan {
    type V = ScanView;

    open spec fn view(&self) -> ScanView {
        ScanView {
            echo: option_text(self.echo),
            notice: notice_view(self.notice),
            found: self.found@,
        }
    }
}

/// How an attempt to settle an event goes on, or how it ended.
#[derive(Debug)]
pub enum Next {
    Ask(Request),
    Settled(Result<(), CalloutError>),
}

impl View for Next {
    type V = NextView;

    open spec fn view(&self) -> NextView {
        match self {
            Next::Ask(request) => NextView::Ask(request@),
            Next::Settled(result) => NextView::Settled(settled_view(*result)),
        }
    }
}

/// What an attempt has come to after one move: a line for the operator, if
/// the script that was run wrote one to its standard error, something for
/// the log, and what is next.
#[derive(Debug)]
pub struct Turn {
    pub echo: Option<String>,
    pub notice: Option<Notice>,
    pub next: Next,
}

impl View for Turn {
    type V = TurnView;

    open spec fn view(&self) -> TurnView {
        TurnView {
            echo: option_text(self.echo),
            notice: notice_view(self.notice),
            next: self.next@,
        }
    }
}

/// What a move of the notification hands out: a line for the operator, and
/// the next request, or `None` where the notification is over.
#[derive(Debug)]
pub struct Told {
    pub echo: Option<String>,
    pub request: Option<Request>,
}

impl View for Told {
    type V = ToldView;

    open spec fn view(&self) -> ToldView {
        ToldView { echo: option_text(self.echo), request: request_view(self.request) }
    }
}

/// What the exit status of the script that took the event means for the
/// event.
fn resolved(script: String, code: Option<i32>) -> (r: Result<(), CalloutError>)
    ensures
        settled_view(r) == resolve(script@, code),
{
    match code {
        Some(n) => if n == 0 {
            Ok(())
        } else {
            Err(CalloutError::InvocationFailure(script, Some(n)))
        },
        None => Err(CalloutError::NoMatchingScript),
    }
}

/// The session for one lifecycle action or one query. It holds what has
/// become of the action, the script it has settled on, and what it is
/// waiting for.
#[derive(Debug)]
pub struct Callout {
    state: State,
    script: Option<String>,
    phase: Phase,
    dir: usize,
    waiting: Waiting,
    paths: Vec<String>,
    at: usize,
    failure: Option<CalloutError>,
}

impl View for Callout {
    type V = CalloutView;

    closed spec fn view(&self) -> CalloutView {
        CalloutView {
            state: self.state,
            script: option_text(self.script),
            phase: self.phase,
            dir: self.dir as nat,
            waiting: self.waiting,
            paths: texts(self.paths@),
            at: self.at as nat,
            failure: match self.failure {
                Some(e) => Some(e@),
                None => None,
            },
        }
    }
}

/// What a sequence has come to after one move. `echo` is a line to pass on
/// to the operator at once, `notice` something for the log.
#[derive(Debug)]
pub enum Progress {
    /// It goes on: `request` is to be carried out and answered to `session`.
    Ask { session: Callout, echo: Option<String>, notice: Option<Notice>, request: Request },
    /// It is over. `state` is what became of the action. Where `failure` is
    /// set, the event before the action failed and the action was left out:
    /// that failure is the result. Else the result is the action's own.
    Done {
        echo: Option<String>,
        notice: Option<Notice>,
        state: State,
        failure: Option<CalloutError>,
    },
}

impl View for Progress {
    type V = ProgressView;

    open spec fn view(&self) -> ProgressView {
        match self {
            Progress::Ask { session, echo, notice, request } => ProgressView::Ask {
                session: session@,
                echo: option_text(*echo),
                notice: notice_view(*notice),
                request: request@,
            },
            Progress::Done { echo, notice, state, failure } => ProgressView::Done {
                echo: option_text(*echo),
                notice: notice_view(*notice),
                state: *state,
                failure: match failure {
                    Some(e) => Some(e@),
                    None => None,
                },
            },
        }
    }
}

impl Callout {
    /// A new session: the action has not run, and no script is settled on.
    pub fn new() -> (c: Callout)
        ensures
            c@ == CalloutView::fresh(),
    {
        let c = Callout {
            state: State::NotRun,
            script: None,
            phase: Phase::Pre,
            dir: 0,
            waiting: Waiting::Nothing,
            paths: Vec::new(),
            at: 0,
            failure: None,
        };
        assert(texts(c.paths@) =~= Seq::<Seq<char>>::empty());
        c
    }

    /// The directory at hand, by its place in the list that is gone through.
    pub fn dir(&self) -> (dir: usize)
        ensures
            dir == self@.dir,
    {
        self.dir
    }

    /// Turns the session to the directory at place `dir`.
    pub(crate) fn turn_to(&mut self, dir: usize)
        ensures
            final(self)@ == (CalloutView { dir: dir as nat, ..old(self)@ }),
    {
        self.dir = dir;
    }

    /// A session of its own for a query in the directory at place `dir`,
    /// whose listing has been asked for.
    pub(crate) fn querying(dir: usize) -> (c: Callout)
        ensures
            c@ == (CalloutView {
                dir: dir as nat,
                waiting: Waiting::Listing,
                ..CalloutView::fresh()
            }),
    {
        let mut c = Callout::new();
        c.dir = dir;
        c.waiting = Waiting::Listing;
        c
    }

    /// The run of `script` for `event`, in the state the session has reached.
    pub fn invoke_script(&self, dev: &Device, script: &String, event: Event, action: Action) -> (run:
        Invocation)
        requires
            dev@.addressable(),
        ensures
            run@ == invocation(script@, dev@, event, action, self@.state),
    {
        let stdin = match event {
            Event::Get => Payload::Empty,
            _ => Payload::Device,
        };
        invoke_callout_script(
            script,
            dev.mdev_type.as_ref().unwrap().clone(),
            dev.uuid.clone(),
            dev.parent.as_ref().unwrap().clone(),
            event,
            action,
            self.state,
            stdin,
        )
    }

    /// The line to pass on to the operator when `reply` comes in: what the
    /// script whose run was awaited wrote to its standard error.
    pub fn heard(&self, reply: &Reply) -> (line: Option<String>)
        ensures
            option_text(line) == heard(self@, reply@),
    {
        match reply {
            Reply::Ran(Some(output)) => {
                if self.waiting == Waiting::Sticky {
                    match &self.script {
                        Some(script) => print_err(output, script),
                        None => None,
                    }
                } else if self.waiting == Waiting::Run && self.at < self.paths.len() {
                    print_err(output, &self.paths[self.at])
                } else {
                    None
                }
            },
            _ => None,
        }
    }

    /// Goes on with the search at entry `at` of the entries at hand.
    fn scan_at(&mut self, dev: &Device, event: Event, action: Action, at: usize) -> (m: Match)
        requires
            dev@.addressable(),
        ensures
            (final(self)@, m@) == scan_from(
                old(self)@,
                dev@,
                event,
                action,
                old(self)@.paths,
                at as nat,
            ),
    {
        self.at = at;
        if at < self.paths.len() {
            self.waiting = Waiting::Run;
            let run = self.invoke_script(dev, &self.paths[at], event, action);
            Match::Ask(Request::Run(run))
        } else {
            self.waiting = Waiting::Nothing;
            Match::Exhausted
        }
    }

    /// One move of the search through a directory for the first script, in
    /// the order of their paths, that takes the event on itself.
    pub fn invoke_first_matching_script(
        &mut self,
        dev: &Device,
        event: Event,
        action: Action,
        reply: Reply,
    ) -> (scan: Scan)
        requires
            dev@.mdev_type is Some ==> dev@.parent is Some,
        ensures
            (final(self)@, scan@) == first_matching_script(old(self)@, dev@, event, action, reply@),
    {
        let nothing = Scan { echo: None, notice: None, found: Match::Exhausted };
        if dev.mdev_type.is_none() {
            self.waiting = Waiting::Nothing;
            return nothing;
        }
        match reply {
            Reply::Listing(Some(entries)) => {
                self.paths = sort_paths(&entries);
                let found = self.scan_at(dev, event, action, 0);
                Scan { echo: None, notice: None, found }
            },
            Reply::Ran(ran) => {
                if self.waiting == Waiting::Run && self.at < self.paths.len() {
                    let script = self.paths[self.at].clone();
                    match ran {
                        None => {
                            self.waiting = Waiting::Nothing;
                            Scan { echo: None, notice: None, found: Match::Unstartable(script) }
                        },
                        Some(output) => {
                            let echo = print_err(&output, &script);
                            if verdict(output.code) == Verdict::Claimed {
                                self.waiting = Waiting::Nothing;
                                Scan { echo, notice: None, found: Match::Found(script, output) }
                            } else {
                                let found = self.scan_at(dev, event, action, self.at + 1);
                                let notice = if output.code.is_none() {
                                    Some(Notice::Signalled(script))
                                } else {
                                    None
                                };
                                Scan { echo, notice, found }
                            }
                        },
                    }
                } else {
                    self.waiting = Waiting::Nothing;
                    nothing
                }
            },
            _ => {
                self.waiting = Waiting::Nothing;
                nothing
            },
        }
    }

    /// One move of the attempt to settle `event` in the directory `dir`.
    /// `reply` is `None` to begin, and then the answer to what was asked.
    pub fn callout_dir(
        &mut self,
        dev: &Device,
        event: Event,
        action: Action,
        dir: &String,
        reply: Option<Reply>,
    ) -> (turn: Turn)
        requires
            dev@.addressable(),
        ensures
            (final(self)@, turn@) == callout_dir(
                old(self)@,
                dev@,
                event,
                action,
                dir@,
                reply_view(reply),
            ),
    {
        let no_match = Turn {
            echo: None,
            notice: None,
            next: Next::Settled(Err(CalloutError::NoMatchingScript)),
        };
        match reply {
            None => match &self.script {
                Some(script) => {
                    let run = self.invoke_script(dev, script, event, action);
                    self.waiting = Waiting::Sticky;
                    Turn { echo: None, notice: None, next: Next::Ask(Request::Run(run)) }
                },
                None => {
                    self.waiting = Waiting::Listing;
                    Turn { echo: None, notice: None, next: Next::Ask(Request::List(dir.clone())) }
                },
            },
            Some(reply) => {
                if self.waiting == Waiting::Sticky {
                    self.waiting = Waiting::Nothing;
                    match (&self.script, reply) {
                        (Some(script), Reply::Ran(Some(output))) => Turn {
                            echo: print_err(&output, script),
                            notice: None,
                            next: Next::Settled(resolved(script.clone(), output.code)),
                        },
                        (Some(script), Reply::Ran(None)) => Turn {
                            echo: None,
                            notice: None,
                            next: Next::Settled(
                                Err(CalloutError::InvocationFailure(script.clone(), None)),
                            ),
                        },
                        _ => no_match,
                    }
                } else if self.waiting == Waiting::Listing || self.waiting == Waiting::Run {
                    let scan = self.invoke_first_matching_script(dev, event, action, reply);
                    let next = match scan.found {
                        Match::Ask(request) => Next::Ask(request),
                        Match::Found(script, output) => {
                            self.script = Some(script.clone());
                            Next::Settled(resolved(script, output.code))
                        },
                        Match::Unstartable(script) => Next::Settled(
                            Err(CalloutError::InvocationFailure(script, None)),
                        ),
                        Match::Exhausted => Next::Settled(Err(CalloutError::NoMatchingScript)),
                    };
                    Turn { echo: scan.echo, notice: scan.notice, next }
                } else {
                    self.waiting = Waiting::Nothing;
                    no_match
                }
            },
        }
    }

    /// One move of the attempt to settle `event` in the directories `dirs`,
    /// taken in their order. `reply` is `None` to begin, and then the answer
    /// to what was asked.
    pub fn callout(
        &mut self,
        dirs: &Vec<String>,
        dev: &Device,
        event: Event,
        action: Action,
        reply: Option<Reply>,
    ) -> (turn: Turn)
        requires
            dev@.addressable(),
        ensures
            (final(self)@, turn@) == callout(
                old(self)@,
                texts(dirs@),
                dev@,
                event,
                action,
                reply_view(reply),
            ),
    {
        if reply.is_none() {
            self.dir = 0;
        }
        if self.dir < dirs.len() {
            let turn = self.callout_dir(dev, event, action, &dirs[self.dir], reply);
            let unmatched = match &turn.next {
                Next::Settled(Err(CalloutError::NoMatchingScript)) => true,
                _ => false,
            };
            if unmatched {
                self.dir = self.dir + 1;
                if self.dir < dirs.len() {
                    let first = self.callout_dir(dev, event, action, &dirs[self.dir], None);
                    Turn { echo: turn.echo, notice: turn.notice, next: first.next }
                } else {
                    Turn { echo: turn.echo, notice: turn.notice, next: Next::Settled(Ok(())) }
                }
            } else {
                turn
            }
        } else {
            self.waiting = Waiting::Nothing;
            Turn { echo: None, notice: None, next: Next::Settled(Ok(())) }
        }
    }

    /// The notification turns to directory `dir` of `dirs`.
    fn notify_from(&mut self, dirs: &Vec<String>, dir: usize) -> (request: Option<Request>)
        ensures
            (final(self)@, request_view(request)) == notify_from(
                old(self)@,
                texts(dirs@),
                dir as nat,
            ),
    {
        if dir < dirs.len() {
            self.dir = dir;
            self.waiting = Waiting::Listing;
            Some(Request::List(dirs[dir].clone()))
        } else {
            self.waiting = Waiting::Nothing;
            None
        }
    }

    /// How the notification goes on after the answer `reply`.
    fn notify_on(&mut self, dirs: &Vec<String>, dev: &Device, action: Action, reply: Reply) -> (request:
        Option<Request>)
        requires
            dev@.addressable(),
        ensures
            (final(self)@, request_view(request)) == notify_on(
                old(self)@,
                texts(dirs@),
                dev@,
                action,
                reply@,
            ),
    {
        if self.waiting == Waiting::Listing {
            match reply {
                Reply::Listing(Some(entries)) => {
                    if entries.len() > 0 {
                        self.paths = entries;
                        self.at = 0;
                        self.waiting = Waiting::Run;
                        let run = self.invoke_script(dev, &self.paths[0], Event::Notify, action);
                        return Some(Request::Run(run));
                    }
                },
                _ => {},
            }
        } else if self.waiting == Waiting::Run {
            if self.at < self.paths.len() && self.at + 1 < self.paths.len() {
                self.at = self.at + 1;
                let run = self.invoke_script(dev, &self.paths[self.at], Event::Notify, action);
                return Some(Request::Run(run));
            }
        } else {
            self.waiting = Waiting::Nothing;
            return None;
        }
        if self.dir < dirs.len() {
            self.notify_from(dirs, self.dir + 1)
        } else {
            self.waiting = Waiting::Nothing;
            None
        }
    }

    /// One move of the notification of every script of every directory of
    /// `dirs`. `reply` is `None` to begin, and then the answer to what was
    /// asked.
    pub fn notify(
        &mut self,
        dirs: &Vec<String>,
        dev: &Device,
        action: Action,
        reply: Option<Reply>,
    ) -> (told: Told)
        requires
            dev@.addressable(),
        ensures
            (final(self)@, told@) == notify(
                old(self)@,
                texts(dirs@),
                dev@,
                action,
                reply_view(reply),
            ),
    {
        match reply {
            None => {
                let request = self.notify_from(dirs, 0);
                Told { echo: None, request }
            },
            Some(reply) => {
                let echo = self.heard(&reply);
                let request = self.notify_on(dirs, dev, action, reply);
                Told { echo, request }
            },
        }
    }

    /// The notification begins; with it the sequence ends.
    fn conclude(
        self,
        env: &Environment,
        dev: &Device,
        action: Action,
        echo: Option<String>,
        notice: Option<Notice>,
    ) -> (p: Progress)
        requires
            dev@.addressable(),
        ensures
            p@ == conclude(self@, env@, dev@, action, option_text(echo), notice_view(notice)),
    {
        let mut session = self;
        session.phase = Phase::Notify;
        let told = session.notify(&env.notification_dirs, dev, action, None);
        match told.request {
            Some(request) => Progress::Ask { session, echo, notice, request },
            None => Progress::Done { echo, notice, state: session.state, failure: session.failure },
        }
    }

    /// The action is asked for.
    fn proceed(self, echo: Option<String>, notice: Option<Notice>) -> (p: Progress)
        ensures
            p@ == proceed(self@, option_text(echo), notice_view(notice)),
    {
        let mut session = self;
        session.waiting = Waiting::Action;
        Progress::Ask { session, echo, notice, request: Request::Act }
    }

    /// What follows a move of the event before the action.
    fn after_pre(
        self,
        turn: Turn,
        env: &Environment,
        dev: &Device,
        action: Action,
        force: bool,
    ) -> (p: Progress)
        requires
            dev@.addressable(),
        ensures
            p@ == after_pre(self@, turn@, env@, dev@, action, force),
    {
        match turn.next {
            Next::Ask(request) => Progress::Ask {
                session: self,
                echo: turn.echo,
                notice: turn.notice,
                request,
            },
            Next::Settled(Ok(_)) => self.proceed(turn.echo, turn.notice),
            Next::Settled(Err(e)) => {
                if force {
                    self.proceed(turn.echo, Some(Notice::Overridden(e)))
                } else {
                    let mut session = self;
                    session.failure = Some(e);
                    session.conclude(env, dev, action, turn.echo, turn.notice)
                }
            },
        }
    }

    /// What follows a move of the event after the action.
    fn after_post(self, turn: Turn, env: &Environment, dev: &Device, action: Action) -> (p:
        Progress)
        requires
            dev@.addressable(),
        ensures
            p@ == after_post(self@, turn@, env@, dev@, action),
    {
        match turn.next {
            Next::Ask(request) => Progress::Ask {
                session: self,
                echo: turn.echo,
                notice: turn.notice,
                request,
            },
            Next::Settled(Ok(_)) => self.conclude(env, dev, action, turn.echo, turn.notice),
            Next::Settled(Err(e)) => self.conclude(
                env,
                dev,
                action,
                turn.echo,
                Some(Notice::Discarded(e)),
            ),
        }
    }

    /// One move of the sequence for `action`: the event before it, the
    /// action, the event after it, the notification. `reply` is `None` to
    /// begin, and then the answer to what was asked.
    ///
    /// The event after the action is tried whatever became of the action, and
    /// never changes what the sequence reports. The notification goes out
    /// whatever came before it.
    pub fn invoke(
        self,
        env: &Environment,
        dev: &Device,
        action: Action,
        force: bool,
        reply: Option<Reply>,
    ) -> (p: Progress)
        requires
            dev@.addressable(),
        ensures
            p@ == invoke(self@, env@, dev@, action, force, reply_view(reply)),
    {
        let mut session = self;
        match reply {
            None => {
                session.phase = Phase::Pre;
                let turn = session.callout(&env.callout_dirs, dev, Event::Pre, action, None);
                session.after_pre(turn, env, dev, action, force)
            },
            Some(reply) => {
                if session.waiting == Waiting::Action {
                    session.state = match reply {
                        Reply::Acted(true) => State::Success,
                        _ => State::Failure,
                    };
                    session.phase = Phase::Post;
                    let turn = session.callout(&env.callout_dirs, dev, Event::Post, action, None);
                    session.after_post(turn, env, dev, action)
                } else {
                    match session.phase {
                        Phase::Pre => {
                            let turn = session.callout(
                                &env.callout_dirs,
                                dev,
                                Event::Pre,
                                action,
                                Some(reply),
                            );
                            session.after_pre(turn, env, dev, action, force)
                        },
                        Phase::Post => {
                            let turn = session.callout(
                                &env.callout_dirs,
                                dev,
                                Event::Post,
                                action,
                                Some(reply),
                            );
                            session.after_post(turn, env, dev, action)
                        },
                        Phase::Notify => {
                            let told = session.notify(
                                &env.notification_dirs,
                                dev,
                                action,
                                Some(reply),
                            );
                            match told.request {
                                Some(request) => Progress::Ask {
                                    session,
                                    echo: told.echo,
                                    notice: None,
                                    request,
                                },
                                None => Progress::Done {
                                    echo: told.echo,
                                    notice: None,
                                    state: session.state,
                                    failure: session.failure,
                                },
                            }
                        },
                    }
                }
            },
        }
    }
}

} // verus!
