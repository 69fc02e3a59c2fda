//! What holds of every session, whatever the scripts do and whatever the
//! directories hold. Each statement here is proved of the moves in `model`,
//! which are the moves the executable session makes.

use crate::error::CalloutErrorView;
use crate::model::{
    awaited, callout, callout_dir, conclude, first_matching_script, heard, invoke, notify,
    notify_from, resolve, unstartable, CalloutView, EnvironmentView, MatchView, NextView,
    NoticeView, Phase, ProgressView, ReplyView, RequestView, TurnView, Waiting,
};
use crate::order::{law_entries_are_tried_in_order, ordered, sorted_paths};
use crate::script::{invocation, report, verdict_of, DeviceView, OutputView, Verdict};
use crate::tokens::{Action, Event, State};
use vstd::prelude::*;

verus! {

/// A search taken through its runs: as long as it asks for a run, it is
/// given the next of `outcomes`. The result is where the search then stands,
/// what it has come to, and the requests that were answered on the way.
pub open spec fn search(
    c: CalloutView,
    dev: DeviceView,
    event: Event,
    action: Action,
    m: MatchView,
    outcomes: Seq<Option<OutputView>>,
) -> (CalloutView, MatchView, Seq<RequestView>)
    decreases outcomes.len(),
{
    match m {
        MatchView::Ask(request) => if outcomes.len() > 0 {
            let (next, scan) = first_matching_script(
                c,
                dev,
                event,
                action,
                ReplyView::Ran(outcomes[0]),
            );
            let (last, result, asked) = search(
                next,
                dev,
                event,
                action,
                scan.found,
                outcomes.drop_first(),
            );
            (last, result, seq![request] + asked)
        } else {
            (c, m, Seq::empty())
        },
        _ => (c, m, Seq::empty()),
    }
}

/// The runs of the entries `from` to `to` of `paths`, the last included.
pub open spec fn runs(
    c: CalloutView,
    dev: DeviceView,
    event: Event,
    action: Action,
    paths: Seq<Seq<char>>,
    from: int,
    to: int,
) -> Seq<RequestView> {
    Seq::new((to + 1 - from) as nat, |k: int| c.run(paths[from + k], dev, event, action))
}

/// The run ends the search: its script claims the event, or could not be
/// started.
pub open spec fn decides(outcome: Option<OutputView>) -> bool {
    match outcome {
        None => true,
        Some(output) => verdict_of(output.code) == Verdict::Claimed,
    }
}

/// What a search comes to with the run of `script` that ends it.
pub open spec fn decided(script: Seq<char>, outcome: Option<OutputView>) -> MatchView {
    match outcome {
        None => MatchView::Unstartable(script),
        Some(output) => MatchView::Found(script, output),
    }
}

/// No run before `i` ends the search, and run `i` does.
pub open spec fn first_decides(outcomes: Seq<Option<OutputView>>, i: int) -> bool {
    &&& 0 <= i < outcomes.len()
    &&& decides(outcomes[i])
    &&& forall|j: int| 0 <= j < i ==> !decides(#[trigger] outcomes[j])
}

proof fn lemma_search_decides(
    c: CalloutView,
    dev: DeviceView,
    event: Event,
    action: Action,
    outcomes: Seq<Option<OutputView>>,
    k: int,
    i: int,
)
    requires
        dev.mdev_type is Some,
        c.waiting == Waiting::Run,
        c.at == k,
        0 <= k <= i,
        outcomes.len() == c.paths.len(),
        first_decides(outcomes, i),
    ensures
        search(
            c,
            dev,
            event,
            action,
            MatchView::Ask(c.run(c.paths[k], dev, event, action)),
            outcomes.skip(k),
        ) == (
            CalloutView { waiting: Waiting::Nothing, at: i as nat, ..c },
            decided(c.paths[i], outcomes[i]),
            runs(c, dev, event, action, c.paths, k, i),
        ),
    decreases i - k,
{
    let rest = outcomes.skip(k);
    assert(rest[0] == outcomes[k]);
    assert(rest.drop_first() =~= outcomes.skip(k + 1));
    let request = c.run(c.paths[k], dev, event, action);
    let (moved, scan) = first_matching_script(c, dev, event, action, ReplyView::Ran(rest[0]));
    if k == i {
        assert(search(moved, dev, event, action, scan.found, rest.drop_first()) == (
            moved,
            scan.found,
            Seq::<RequestView>::empty(),
        ));
        assert(seq![request] + Seq::<RequestView>::empty() =~= runs(
            c,
            dev,
            event,
            action,
            c.paths,
            k,
            i,
        ));
    } else {
        assert(!decides(outcomes[k]));
        let next = CalloutView { at: (k + 1) as nat, ..c };
        lemma_search_decides(next, dev, event, action, outcomes, k + 1, i);
        assert(seq![request] + runs(next, dev, event, action, c.paths, k + 1, i) =~= runs(
            c,
            dev,
            event,
            action,
            c.paths,
            k,
            i,
        ));
    }
}

proof fn lemma_search_exhausts(
    c: CalloutView,
    dev: DeviceView,
    event: Event,
    action: Action,
    outcomes: Seq<Option<OutputView>>,
    k: int,
)
    requires
        dev.mdev_type is Some,
        c.waiting == Waiting::Run,
        c.at == k,
        0 <= k < outcomes.len(),
        outcomes.len() == c.paths.len(),
        forall|j: int| 0 <= j < outcomes.len() ==> !decides(#[trigger] outcomes[j]),
    ensures
        search(
            c,
            dev,
            event,
            action,
            MatchView::Ask(c.run(c.paths[k], dev, event, action)),
            outcomes.skip(k),
        ) == (
            CalloutView { waiting: Waiting::Nothing, at: c.paths.len(), ..c },
            MatchView::Exhausted,
            runs(c, dev, event, action, c.paths, k, c.paths.len() - 1),
        ),
    decreases outcomes.len() - k,
{
    let rest = outcomes.skip(k);
    assert(rest[0] == outcomes[k]);
    assert(!decides(outcomes[k]));
    assert(rest.drop_first() =~= outcomes.skip(k + 1));
    let request = c.run(c.paths[k], dev, event, action);
    let last = c.paths.len() - 1;
    let (moved, scan) = first_matching_script(c, dev, event, action, ReplyView::Ran(rest[0]));
    if k == last {
        assert(rest.drop_first().len() == 0);
        assert(search(moved, dev, event, action, scan.found, rest.drop_first()) == (
            moved,
            scan.found,
            Seq::<RequestView>::empty(),
        ));
        assert(seq![request] + Seq::<RequestView>::empty() =~= runs(
            c,
            dev,
            event,
            action,
            c.paths,
            k,
            last,
        ));
    } else {
        let next = CalloutView { at: (k + 1) as nat, ..c };
        lemma_search_exhausts(next, dev, event, action, outcomes, k + 1);
        assert(seq![request] + runs(next, dev, event, action, c.paths, k + 1, last) =~= runs(
            c,
            dev,
            event,
            action,
            c.paths,
            k,
            last,
        ));
    }
}

/// The search through a directory ends with the first entry, in the order
/// of their paths, whose run claims the event or cannot be started: every
/// entry before it is run once, in that order, none after it is run at all.
/// What comes back is that entry: with what its run left behind where it
/// claimed the event, and as a script that could not be started else.
/// `outcomes` holds, for each entry in the order of trial, what its run
/// gives.
pub proof fn law_search_ends_at_first_decision(
    c: CalloutView,
    dev: DeviceView,
    event: Event,
    action: Action,
    entries: Seq<Seq<char>>,
    outcomes: Seq<Option<OutputView>>,
    i: int,
)
    requires
        dev.mdev_type is Some,
        outcomes.len() == entries.len(),
        first_decides(outcomes, i),
    ensures
        ({
            let paths = sorted_paths(entries);
            let (begun, scan) = first_matching_script(
                c,
                dev,
                event,
                action,
                ReplyView::Listing(Some(entries)),
            );
            let (last, result, asked) = search(begun, dev, event, action, scan.found, outcomes);
            &&& ordered(paths)
            &&& paths.to_multiset() == entries.to_multiset()
            &&& result == decided(paths[i], outcomes[i])
            &&& asked == runs(c, dev, event, action, paths, 0, i)
            &&& last.waiting == Waiting::Nothing
        }),
{
    law_entries_are_tried_in_order(entries);
    let paths = sorted_paths(entries);
    let begun = CalloutView { waiting: Waiting::Run, paths, at: 0, ..c };
    assert(outcomes.skip(0) =~= outcomes);
    lemma_search_decides(begun, dev, event, action, outcomes, 0, i);
    assert(runs(begun, dev, event, action, paths, 0, i) =~= runs(
        c,
        dev,
        event,
        action,
        paths,
        0,
        i,
    ));
}

/// Where every script declines or is ended by a signal, the search runs
/// every entry once, in the order of their paths, and finds nothing.
pub proof fn law_search_without_decision(
    c: CalloutView,
    dev: DeviceView,
    event: Event,
    action: Action,
    entries: Seq<Seq<char>>,
    outcomes: Seq<Option<OutputView>>,
)
    requires
        dev.mdev_type is Some,
        outcomes.len() == entries.len(),
        forall|j: int| 0 <= j < outcomes.len() ==> !decides(#[trigger] outcomes[j]),
    ensures
        ({
            let paths = sorted_paths(entries);
            let (begun, scan) = first_matching_script(
                c,
                dev,
                event,
                action,
                ReplyView::Listing(Some(entries)),
            );
            let (last, result, asked) = search(begun, dev, event, action, scan.found, outcomes);
            &&& result == MatchView::Exhausted
            &&& asked == runs(c, dev, event, action, paths, 0, paths.len() - 1)
            &&& last.waiting == Waiting::Nothing
        }),
{
    law_entries_are_tried_in_order(entries);
    let paths = sorted_paths(entries);
    if paths.len() > 0 {
        let begun = CalloutView { waiting: Waiting::Run, paths, at: 0, ..c };
        assert(outcomes.skip(0) =~= outcomes);
        lemma_search_exhausts(begun, dev, event, action, outcomes, 0);
        assert(runs(begun, dev, event, action, paths, 0, paths.len() - 1) =~= runs(
            c,
            dev,
            event,
            action,
            paths,
            0,
            paths.len() - 1,
        ));
    } else {
        assert(runs(c, dev, event, action, paths, 0, paths.len() - 1) =~= Seq::empty());
    }
}

/// Every move hands out, for the operator, what the script whose run it
/// takes the answer of wrote to its standard error: the search and the
/// attempts in one directory and in all, whatever the run came to.
pub proof fn law_every_run_is_heard(
    c: CalloutView,
    dirs: Seq<Seq<char>>,
    dev: DeviceView,
    event: Event,
    action: Action,
    output: OutputView,
)
    requires
        dev.mdev_type is Some,
        awaited(c) is Some,
        c.dir < dirs.len(),
    ensures
        ({
            let reply = ReplyView::Ran(Some(output));
            let line = report(awaited(c).unwrap(), output.stderr);
            &&& heard(c, reply) == line
            &&& c.waiting == Waiting::Run ==> first_matching_script(c, dev, event, action, reply).1.echo
                == line
            &&& callout_dir(c, dev, event, action, dirs[c.dir as int], Some(reply)).1.echo == line
            &&& callout(c, dirs, dev, event, action, Some(reply)).1.echo == line
            &&& notify(c, dirs, dev, action, Some(reply)).1.echo == line
        }),
{
}

/// A script that cannot be started fails the event it was to be run for:
/// the attempt ends at once with a failure that names the script, no
/// further entry and no further directory is tried, and the session settles
/// on no script on that account.
pub proof fn law_unstartable_script_fails_event(
    c: CalloutView,
    dirs: Seq<Seq<char>>,
    dev: DeviceView,
    event: Event,
    action: Action,
)
    requires
        dev.mdev_type is Some,
        awaited(c) is Some,
        c.dir < dirs.len(),
    ensures
        ({
            let (after, turn) = callout(c, dirs, dev, event, action, Some(ReplyView::Ran(None)));
            &&& turn.next == NextView::Settled(Err(unstartable(awaited(c).unwrap())))
            &&& after == c.settle()
        }),
{
}

/// A session that has settled on a script begins every attempt, in whatever
/// directory, with the run of that script: no directory is listed again.
pub proof fn law_settled_script_is_run(
    c: CalloutView,
    dev: DeviceView,
    event: Event,
    action: Action,
    dir: Seq<char>,
    script: Seq<char>,
)
    requires
        c.script == Some(script),
    ensures
        callout_dir(c, dev, event, action, dir, None) == (
            CalloutView { waiting: Waiting::Sticky, ..c },
            TurnView::ask(RequestView::Run(invocation(script, dev, event, action, c.state))),
        ),
{
}

/// The answer to the run of the script a session has settled on ends the
/// attempt by that script's exit status, and the session stays settled on
/// it.
pub proof fn law_settled_script_answers(
    c: CalloutView,
    dev: DeviceView,
    event: Event,
    action: Action,
    dir: Seq<char>,
    script: Seq<char>,
    output: OutputView,
)
    requires
        c.script == Some(script),
        c.waiting == Waiting::Sticky,
    ensures
        ({
            let (after, turn) = callout_dir(
                c,
                dev,
                event,
                action,
                dir,
                Some(ReplyView::Ran(Some(output))),
            );
            &&& after.script == Some(script)
            &&& turn.next == NextView::Settled(resolve(script, output.code))
        }),
{
}

/// The script whose run claims an event in a search becomes the script the
/// session is settled on.
pub proof fn law_claiming_script_settles(
    c: CalloutView,
    dev: DeviceView,
    event: Event,
    action: Action,
    dir: Seq<char>,
    output: OutputView,
)
    requires
        dev.mdev_type is Some,
        c.waiting == Waiting::Run,
        c.at < c.paths.len(),
        verdict_of(output.code) == Verdict::Claimed,
    ensures
        ({
            let (after, turn) = callout_dir(
                c,
                dev,
                event,
                action,
                dir,
                Some(ReplyView::Ran(Some(output))),
            );
            &&& after.script == Some(c.paths[c.at as int])
            &&& turn.next == NextView::Settled(resolve(c.paths[c.at as int], output.code))
        }),
{
}

/// A session searches only while it has not settled on a script, it awaits
/// the run of a settled script only when it has one, and the entry it
/// awaits the run of is an entry of the directory at hand.
pub open spec fn coherent(c: CalloutView) -> bool {
    &&& c.waiting == Waiting::Sticky ==> c.script is Some
    &&& c.waiting == Waiting::Run ==> c.at < c.paths.len()
    &&& c.phase != Phase::Notify && (c.waiting == Waiting::Listing || c.waiting == Waiting::Run)
        ==> c.script is None
    &&& c.waiting == Waiting::Action ==> c.phase == Phase::Pre
}

/// Where a sequence stands after a move, if it goes on.
pub open spec fn session_of(p: ProgressView) -> Option<CalloutView> {
    match p {
        ProgressView::Ask { session, echo, notice, request } => Some(session),
        ProgressView::Done { echo, notice, state, failure } => None,
    }
}

/// A sequence taken through the answers it is given: as long as it asks,
/// the next of `replies` is its answer.
pub open spec fn advance(
    p: ProgressView,
    env: EnvironmentView,
    dev: DeviceView,
    action: Action,
    force: bool,
    replies: Seq<ReplyView>,
) -> ProgressView
    decreases replies.len(),
{
    match p {
        ProgressView::Ask { session, echo, notice, request } => if replies.len() > 0 {
            advance(
                invoke(session, env, dev, action, force, Some(replies[0])),
                env,
                dev,
                action,
                force,
                replies.drop_first(),
            )
        } else {
            p
        },
        ProgressView::Done { echo, notice, state, failure } => p,
    }
}

/// A move of an attempt in one directory leaves alone what has become of the
/// action, the part of the sequence, and the failure that is kept.
proof fn lemma_callout_dir_keeps(
    c: CalloutView,
    dev: DeviceView,
    event: Event,
    action: Action,
    dir: Seq<char>,
    reply: Option<ReplyView>,
)
    requires
        coherent(c),
        c.phase != Phase::Notify,
        c.waiting != Waiting::Action,
    ensures
        ({
            let (after, turn) = callout_dir(c, dev, event, action, dir, reply);
            &&& after.state == c.state
            &&& after.phase == c.phase
            &&& after.failure == c.failure
            &&& after.dir == c.dir
            &&& after.waiting != Waiting::Action
            &&& coherent(after)
            &&& c.script is Some ==> after.script == c.script
            &&& turn.next is Ask ==> after.waiting != Waiting::Nothing
            &&& turn.next is Settled ==> after.waiting == Waiting::Nothing
        }),
{
}

/// The same of a move of an attempt in all directories.
proof fn lemma_callout_keeps(
    c: CalloutView,
    dirs: Seq<Seq<char>>,
    dev: DeviceView,
    event: Event,
    action: Action,
    reply: Option<ReplyView>,
)
    requires
        coherent(c),
        c.phase != Phase::Notify,
        c.waiting != Waiting::Action,
    ensures
        ({
            let (after, turn) = callout(c, dirs, dev, event, action, reply);
            &&& after.state == c.state
            &&& after.phase == c.phase
            &&& after.failure == c.failure
            &&& after.waiting != Waiting::Action
            &&& coherent(after)
            &&& c.script is Some ==> after.script == c.script
            &&& turn.next is Ask ==> turn.next != NextView::Ask(RequestView::Act)
        }),
{
    let start = if reply is None {
        CalloutView { dir: 0, ..c }
    } else {
        c
    };
    if start.dir < dirs.len() {
        lemma_callout_dir_keeps(start, dev, event, action, dirs[start.dir as int], reply);
        let (tried, turn) = callout_dir(start, dev, event, action, dirs[start.dir as int], reply);
        if turn.next == NextView::Settled(Err(CalloutErrorView::NoMatchingScript)) {
            let onward = CalloutView { dir: start.dir + 1, ..tried };
            if onward.dir < dirs.len() {
                lemma_callout_dir_keeps(onward, dev, event, action, dirs[onward.dir as int], None);
            }
        }
    }
}

/// The request belongs to the notification: it lists one of the
/// directories of notification scripts, or runs a script for the event
/// `notify`.
pub open spec fn is_notification(
    request: RequestView,
    env: EnvironmentView,
    dev: DeviceView,
    action: Action,
    state: State,
) -> bool {
    match request {
        RequestView::List(dir) => env.notification_dirs.contains(dir),
        RequestView::Run(run) => exists|path: Seq<char>|
            run == #[trigger] invocation(path, dev, Event::Notify, action, state),
        RequestView::Act => false,
    }
}

/// A request of the notification is not the action, and it is no run for
/// another event: the token after `-e` tells them apart.
pub proof fn law_notification_is_no_other_request(
    request: RequestView,
    env: EnvironmentView,
    dev: DeviceView,
    action: Action,
    state: State,
    script: Seq<char>,
    event: Event,
    other: State,
)
    requires
        is_notification(request, env, dev, action, state),
        event != Event::Notify,
    ensures
        request != RequestView::Act,
        request != RequestView::Run(invocation(script, dev, event, action, other)),
{
    crate::tokens::law_event_tokens_differ(event, Event::Notify);
    match request {
        RequestView::Run(run) => {
            let path = choose|path: Seq<char>|
                run == #[trigger] invocation(path, dev, Event::Notify, action, state);
            assert(run.args[3] == Event::Notify.token());
            assert(invocation(script, dev, event, action, other).args[3] == event.token());
        },
        _ => {},
    }
}

/// A move of the notification asks for nothing but the notification, and
/// changes nothing of what the sequence will report.
proof fn lemma_notify_keeps(
    c: CalloutView,
    env: EnvironmentView,
    dev: DeviceView,
    action: Action,
    reply: Option<ReplyView>,
)
    requires
        coherent(c),
        c.phase == Phase::Notify,
    ensures
        ({
            let (after, told) = notify(c, env.notification_dirs, dev, action, reply);
            &&& after.state == c.state
            &&& after.phase == c.phase
            &&& after.failure == c.failure
            &&& after.script == c.script
            &&& after.waiting != Waiting::Action
            &&& coherent(after)
            &&& told.request matches Some(request) ==> is_notification(
                request,
                env,
                dev,
                action,
                c.state,
            )
        }),
{
    let (after, told) = notify(c, env.notification_dirs, dev, action, reply);
    match told.request {
        Some(RequestView::Run(run)) => {
            assert(run == invocation(after.paths[after.at as int], dev, Event::Notify, action, c.state));
        },
        _ => {},
    }
}

/// What a sequence will report, as far as it is decided when the session
/// is `c`: the state and the failure it holds.
pub open spec fn reports(p: ProgressView, c: CalloutView) -> bool {
    match p {
        ProgressView::Ask { session, echo, notice, request } => session.state == c.state
            && session.failure == c.failure,
        ProgressView::Done { echo, notice, state, failure } => state == c.state && failure
            == c.failure,
    }
}

/// The sequence is in its notification, or over.
pub open spec fn in_notification(
    p: ProgressView,
    env: EnvironmentView,
    dev: DeviceView,
    action: Action,
) -> bool {
    match p {
        ProgressView::Ask { session, echo, notice, request } => {
            &&& coherent(session)
            &&& session.phase == Phase::Notify
            &&& session.waiting != Waiting::Action
            &&& is_notification(request, env, dev, action, session.state)
        },
        ProgressView::Done { echo, notice, state, failure } => true,
    }
}

/// The action of the sequence has been answered, or left out for good: the
/// sequence will not ask for it.
pub open spec fn past_action(p: ProgressView) -> bool {
    match p {
        ProgressView::Ask { session, echo, notice, request } => {
            &&& coherent(session)
            &&& session.phase != Phase::Pre
            &&& session.waiting != Waiting::Action
            &&& request != RequestView::Act
        },
        ProgressView::Done { echo, notice, state, failure } => true,
    }
}

proof fn lemma_conclude(
    c: CalloutView,
    env: EnvironmentView,
    dev: DeviceView,
    action: Action,
    echo: Option<Seq<char>>,
    notice: Option<NoticeView>,
)
    requires
        coherent(c),
        c.waiting != Waiting::Action,
    ensures
        ({
            let p = conclude(c, env, dev, action, echo, notice);
            &&& reports(p, c)
            &&& in_notification(p, env, dev, action)
            &&& past_action(p)
        }),
{
    lemma_notify_keeps(CalloutView { phase: Phase::Notify, ..c }, env, dev, action, None);
}

/// One move of a sequence that is in its notification.
proof fn lemma_notification_move(
    c: CalloutView,
    env: EnvironmentView,
    dev: DeviceView,
    action: Action,
    force: bool,
    reply: ReplyView,
)
    requires
        coherent(c),
        c.phase == Phase::Notify,
    ensures
        ({
            let p = invoke(c, env, dev, action, force, Some(reply));
            &&& reports(p, c)
            &&& in_notification(p, env, dev, action)
            &&& past_action(p)
        }),
{
    lemma_notify_keeps(c, env, dev, action, Some(reply));
}

/// What follows the end of an attempt after the action.
proof fn lemma_after_post(
    session: CalloutView,
    turn: TurnView,
    env: EnvironmentView,
    dev: DeviceView,
    action: Action,
)
    requires
        coherent(session),
        session.waiting != Waiting::Action,
        session.phase == Phase::Post,
        turn.next is Ask ==> turn.next != NextView::Ask(RequestView::Act),
    ensures
        ({
            let p = crate::model::after_post(session, turn, env, dev, action);
            &&& reports(p, session)
            &&& past_action(p)
        }),
{
    match turn.next {
        NextView::Ask(request) => {},
        NextView::Settled(Ok(_)) => {
            lemma_conclude(session, env, dev, action, turn.echo, turn.notice);
        },
        NextView::Settled(Err(e)) => {
            lemma_conclude(
                session,
                env,
                dev,
                action,
                turn.echo,
                Some(NoticeView::Discarded(e)),
            );
        },
    }
}

/// One move of a sequence whose action has been answered.
proof fn lemma_late_move(
    c: CalloutView,
    env: EnvironmentView,
    dev: DeviceView,
    action: Action,
    force: bool,
    reply: ReplyView,
)
    requires
        coherent(c),
        c.phase != Phase::Pre,
        c.waiting != Waiting::Action,
    ensures
        ({
            let p = invoke(c, env, dev, action, force, Some(reply));
            &&& reports(p, c)
            &&& past_action(p)
        }),
{
    if c.phase == Phase::Notify {
        lemma_notification_move(c, env, dev, action, force, reply);
    } else {
        lemma_callout_keeps(c, env.callout_dirs, dev, Event::Post, action, Some(reply));
        let (session, turn) = callout(c, env.callout_dirs, dev, Event::Post, action, Some(reply));
        lemma_after_post(session, turn, env, dev, action);
    }
}

/// Once the action has been answered, nothing that follows changes what the
/// sequence reports: whatever the scripts for the event after the action
/// and the notification scripts do, and whether or not they can be started,
/// the sequence ends with the state that the action gave it and with no
/// failure but the one it held. And it never asks for the action again.
pub proof fn law_report_is_settled_by_the_action(
    c: CalloutView,
    echo: Option<Seq<char>>,
    notice: Option<NoticeView>,
    request: RequestView,
    env: EnvironmentView,
    dev: DeviceView,
    action: Action,
    force: bool,
    replies: Seq<ReplyView>,
)
    requires
        coherent(c),
        c.phase != Phase::Pre,
        c.waiting != Waiting::Action,
        request != RequestView::Act,
    ensures
        ({
            let p = advance(
                ProgressView::Ask { session: c, echo, notice, request },
                env,
                dev,
                action,
                force,
                replies,
            );
            &&& reports(p, c)
            &&& past_action(p)
        }),
    decreases replies.len(),
{
    if replies.len() > 0 {
        lemma_late_move(c, env, dev, action, force, replies[0]);
        let p = invoke(c, env, dev, action, force, Some(replies[0]));
        match p {
            ProgressView::Ask { session, echo, notice, request } => {
                law_report_is_settled_by_the_action(
                    session,
                    echo,
                    notice,
                    request,
                    env,
                    dev,
                    action,
                    force,
                    replies.drop_first(),
                );
            },
            ProgressView::Done { echo, notice, state, failure } => {
                assert(advance(p, env, dev, action, force, replies.drop_first()) == p);
            },
        }
    }
}

/// Once the notification has begun, the sequence asks for nothing else:
/// every request lists a directory of notification scripts or runs a script
/// for the event `notify`, and what the sequence reports stays as it was.
pub proof fn law_notification_is_last(
    c: CalloutView,
    echo: Option<Seq<char>>,
    notice: Option<NoticeView>,
    request: RequestView,
    env: EnvironmentView,
    dev: DeviceView,
    action: Action,
    force: bool,
    replies: Seq<ReplyView>,
)
    requires
        coherent(c),
        c.phase == Phase::Notify,
        c.waiting != Waiting::Action,
        is_notification(request, env, dev, action, c.state),
    ensures
        ({
            let p = advance(
                ProgressView::Ask { session: c, echo, notice, request },
                env,
                dev,
                action,
                force,
                replies,
            );
            &&& reports(p, c)
            &&& in_notification(p, env, dev, action)
        }),
    decreases replies.len(),
{
    if replies.len() > 0 {
        lemma_notification_move(c, env, dev, action, force, replies[0]);
        let p = invoke(c, env, dev, action, force, Some(replies[0]));
        match p {
            ProgressView::Ask { session, echo, notice, request } => {
                law_notification_is_last(
                    session,
                    echo,
                    notice,
                    request,
                    env,
                    dev,
                    action,
                    force,
                    replies.drop_first(),
                );
            },
            ProgressView::Done { echo, notice, state, failure } => {
                assert(advance(p, env, dev, action, force, replies.drop_first()) == p);
            },
        }
    }
}

/// The exit status that a run left behind, if the script was started and
/// ran to its end.
pub open spec fn status(ran: Option<OutputView>) -> Option<i32> {
    match ran {
        Some(output) => output.code,
        None => None,
    }
}

/// The session awaits, for the event before the action, the run of a script
/// that decides the event: one it has settled on, or one that claims the
/// event or cannot be started.
pub open spec fn decides_before_action(
    c: CalloutView,
    env: EnvironmentView,
    dev: DeviceView,
    ran: Option<OutputView>,
) -> bool {
    &&& coherent(c)
    &&& c.phase == Phase::Pre
    &&& c.dir < env.callout_dirs.len()
    &&& dev.mdev_type is Some
    &&& awaited(c) is Some
    &&& ran is Some ==> status(ran) is Some
    &&& c.waiting == Waiting::Run ==> decides(ran)
}

/// The script the session is settled on after that run: the one it was
/// settled on before, or the one that has claimed the event; none where the
/// script of a search could not be started.
pub open spec fn settled_on(c: CalloutView, ran: Option<OutputView>) -> Option<Seq<char>> {
    if c.waiting == Waiting::Run && ran is None {
        c.script
    } else {
        awaited(c)
    }
}

/// A script that fails the event before the action, by its exit status or
/// because it cannot be started, with an operator who does not force the
/// action, ends the sequence in failure: the action is never asked for, no
/// script is run for the event after it, every request that follows belongs
/// to the notification, and the sequence reports that failure with the
/// state it had.
pub proof fn law_failure_before_action_ends_sequence(
    c: CalloutView,
    env: EnvironmentView,
    dev: DeviceView,
    action: Action,
    ran: Option<OutputView>,
    replies: Seq<ReplyView>,
)
    requires
        decides_before_action(c, env, dev, ran),
        status(ran) != Some(0i32),
    ensures
        ({
            let failed = CalloutView {
                failure: Some(
                    CalloutErrorView::InvocationFailure(awaited(c).unwrap(), status(ran)),
                ),
                ..c
            };
            let p = invoke(c, env, dev, action, false, Some(ReplyView::Ran(ran)));
            let end = advance(p, env, dev, action, false, replies);
            &&& in_notification(p, env, dev, action)
            &&& in_notification(end, env, dev, action)
            &&& reports(p, failed)
            &&& reports(end, failed)
        }),
{
    let reply = ReplyView::Ran(ran);
    lemma_callout_keeps(c, env.callout_dirs, dev, Event::Pre, action, Some(reply));
    let (tried, turn) = callout(c, env.callout_dirs, dev, Event::Pre, action, Some(reply));
    let e = CalloutErrorView::InvocationFailure(awaited(c).unwrap(), status(ran));
    assert(turn.next == NextView::Settled(Err(e)));
    let kept = CalloutView { failure: Some(e), ..tried };
    lemma_conclude(kept, env, dev, action, turn.echo, turn.notice);
    let p = invoke(c, env, dev, action, false, Some(reply));
    match p {
        ProgressView::Ask { session, echo, notice, request } => {
            law_notification_is_last(session, echo, notice, request, env, dev, action, false, replies);
        },
        ProgressView::Done { echo, notice, state, failure } => {
            assert(advance(p, env, dev, action, false, replies) == p);
        },
    }
}

/// A script that passes the event before the action leads to the action,
/// and so does one that fails it, by its exit status or because it cannot
/// be started, before an operator who forces the action: the action is
/// asked for next, and no failure is kept. The failure that is overridden
/// is handed out for the log. The session stays settled on a script that
/// was run.
pub proof fn law_action_follows_event(
    c: CalloutView,
    env: EnvironmentView,
    dev: DeviceView,
    action: Action,
    force: bool,
    ran: Option<OutputView>,
)
    requires
        decides_before_action(c, env, dev, ran),
        status(ran) == Some(0i32) || force,
    ensures
        invoke(c, env, dev, action, force, Some(ReplyView::Ran(ran))) == (ProgressView::Ask {
            session: CalloutView { waiting: Waiting::Action, script: settled_on(c, ran), ..c },
            echo: heard(c, ReplyView::Ran(ran)),
            notice: if status(ran) == Some(0i32) {
                None
            } else {
                Some(
                    NoticeView::Overridden(
                        CalloutErrorView::InvocationFailure(awaited(c).unwrap(), status(ran)),
                    ),
                )
            },
            request: RequestView::Act,
        }),
{
}

/// The answer to the action settles what the sequence reports. It sets the
/// state, the event after the action begins, with the script the session is
/// settled on if there is one, and whatever the answers from then on, the
/// sequence ends with that state and never asks for the action again.
pub proof fn law_action_settles_report(
    c: CalloutView,
    env: EnvironmentView,
    dev: DeviceView,
    action: Action,
    force: bool,
    succeeded: bool,
    replies: Seq<ReplyView>,
)
    requires
        coherent(c),
        c.waiting == Waiting::Action,
    ensures
        ({
            let state = if succeeded {
                State::Success
            } else {
                State::Failure
            };
            let acted = CalloutView { state, ..c };
            let p = invoke(c, env, dev, action, force, Some(ReplyView::Acted(succeeded)));
            let end = advance(p, env, dev, action, force, replies);
            &&& reports(p, acted)
            &&& reports(end, acted)
            &&& past_action(p)
            &&& past_action(end)
            &&& c.script is Some && env.callout_dirs.len() > 0 ==> (p matches ProgressView::Ask {
                session,
                echo,
                notice,
                request,
            } && request == RequestView::Run(
                invocation(c.script.unwrap(), dev, Event::Post, action, state),
            ) && session.script == c.script)
        }),
{
    let state = if succeeded {
        State::Success
    } else {
        State::Failure
    };
    let begun = CalloutView { state, phase: Phase::Post, waiting: Waiting::Nothing, ..c };
    let posted = CalloutView { state, phase: Phase::Post, ..c };
    // The attempt begins alike whether or not the request for the action is
    // still noted as open.
    assert(callout(posted, env.callout_dirs, dev, Event::Post, action, None) == callout(
        begun,
        env.callout_dirs,
        dev,
        Event::Post,
        action,
        None,
    ));
    lemma_callout_keeps(begun, env.callout_dirs, dev, Event::Post, action, None);
    let (session, turn) = callout(begun, env.callout_dirs, dev, Event::Post, action, None);
    lemma_after_post(session, turn, env, dev, action);
    let p = invoke(c, env, dev, action, force, Some(ReplyView::Acted(succeeded)));
    match p {
        ProgressView::Ask { session, echo, notice, request } => {
            law_report_is_settled_by_the_action(
                session,
                echo,
                notice,
                request,
                env,
                dev,
                action,
                force,
                replies,
            );
        },
        ProgressView::Done { echo, notice, state, failure } => {
            assert(advance(p, env, dev, action, force, replies) == p);
        },
    }
}

/// The runs, for the event `notify`, of the entries of a listing from entry
/// `from` on, in the order of the listing.
pub open spec fn notifications(
    entries: Seq<Seq<char>>,
    from: nat,
    dev: DeviceView,
    action: Action,
    state: State,
) -> Seq<RequestView> {
    Seq::new(
        (entries.len() - from) as nat,
        |k: int| RequestView::Run(invocation(entries[from + k], dev, Event::Notify, action, state)),
    )
}

/// The entries that the listing of a directory gives: none where the path
/// is no directory or cannot be read.
pub open spec fn entries_of(listing: Option<Seq<Seq<char>>>) -> Seq<Seq<char>> {
    match listing {
        Some(entries) => entries,
        None => Seq::empty(),
    }
}

/// What a whole notification asks for from directory `from` on, where
/// directory `d` lists `listings[d]`: for each directory in turn its
/// listing, and then one run of each of its entries, as the listing gave
/// them.
pub open spec fn whole_notification(
    dirs: Seq<Seq<char>>,
    listings: Seq<Option<Seq<Seq<char>>>>,
    from: nat,
    dev: DeviceView,
    action: Action,
    state: State,
) -> Seq<RequestView>
    decreases dirs.len() - from,
{
    if from < dirs.len() {
        seq![RequestView::List(dirs[from as int])] + notifications(
            entries_of(listings[from as int]),
            0,
            dev,
            action,
            state,
        ) + whole_notification(dirs, listings, from + 1, dev, action, state)
    } else {
        Seq::empty()
    }
}

/// How a world answers the request a session in its notification waits
/// for: directory `d` lists `listings[d]`, and the run of entry `k` of
/// directory `d` is answered with `answer(d, k)`.
pub open spec fn answer_of(
    c: CalloutView,
    listings: Seq<Option<Seq<Seq<char>>>>,
    answer: spec_fn(nat, nat) -> ReplyView,
) -> ReplyView {
    if c.waiting == Waiting::Listing {
        ReplyView::Listing(listings[c.dir as int])
    } else {
        answer(c.dir, c.at)
    }
}

/// The requests of a notification that is answered `fuel` times at most by
/// such a world.
pub open spec fn told(
    c: CalloutView,
    dirs: Seq<Seq<char>>,
    listings: Seq<Option<Seq<Seq<char>>>>,
    answer: spec_fn(nat, nat) -> ReplyView,
    dev: DeviceView,
    action: Action,
    request: Option<RequestView>,
    fuel: nat,
) -> Seq<RequestView>
    decreases fuel,
{
    match request {
        Some(request) => if fuel > 0 {
            let (next, then) = notify(
                c,
                dirs,
                dev,
                action,
                Some(answer_of(c, listings, answer)),
            );
            seq![request] + told(
                next,
                dirs,
                listings,
                answer,
                dev,
                action,
                then.request,
                (fuel - 1) as nat,
            )
        } else {
            Seq::empty()
        },
        None => Seq::empty(),
    }
}

proof fn lemma_told_from_entry(
    c: CalloutView,
    dirs: Seq<Seq<char>>,
    listings: Seq<Option<Seq<Seq<char>>>>,
    answer: spec_fn(nat, nat) -> ReplyView,
    dev: DeviceView,
    action: Action,
    fuel: nat,
)
    requires
        listings.len() == dirs.len(),
        c.dir < dirs.len(),
        c.waiting == Waiting::Run,
        c.at < c.paths.len(),
        fuel >= notifications(c.paths, c.at, dev, action, c.state).len() + whole_notification(
            dirs,
            listings,
            c.dir + 1,
            dev,
            action,
            c.state,
        ).len(),
    ensures
        told(
            c,
            dirs,
            listings,
            answer,
            dev,
            action,
            Some(c.run(c.paths[c.at as int], dev, Event::Notify, action)),
            fuel,
        ) == notifications(c.paths, c.at, dev, action, c.state) + whole_notification(
            dirs,
            listings,
            c.dir + 1,
            dev,
            action,
            c.state,
        ),
    decreases dirs.len() - c.dir, 1int, c.paths.len() - c.at,
{
    let here = notifications(c.paths, c.at, dev, action, c.state);
    let rest = whole_notification(dirs, listings, c.dir + 1, dev, action, c.state);
    let request = c.run(c.paths[c.at as int], dev, Event::Notify, action);
    let (next, then) = notify(c, dirs, dev, action, Some(answer(c.dir, c.at)));
    if c.at + 1 < c.paths.len() {
        lemma_told_from_entry(next, dirs, listings, answer, dev, action, (fuel - 1) as nat);
        assert(here =~= seq![request] + notifications(
            c.paths,
            c.at + 1,
            dev,
            action,
            c.state,
        ));
        assert(seq![request] + (notifications(c.paths, c.at + 1, dev, action, c.state) + rest)
            =~= here + rest);
    } else {
        assert(here =~= seq![request]);
        lemma_told_from_dir(c, dirs, listings, answer, dev, action, c.dir + 1, (fuel - 1) as nat);
    }
}

proof fn lemma_told_from_dir(
    c: CalloutView,
    dirs: Seq<Seq<char>>,
    listings: Seq<Option<Seq<Seq<char>>>>,
    answer: spec_fn(nat, nat) -> ReplyView,
    dev: DeviceView,
    action: Action,
    dir: nat,
    fuel: nat,
)
    requires
        listings.len() == dirs.len(),
        fuel >= whole_notification(dirs, listings, dir, dev, action, c.state).len(),
    ensures
        ({
            let (begun, first) = notify_from(c, dirs, dir);
            told(begun, dirs, listings, answer, dev, action, first, fuel) == whole_notification(
                dirs,
                listings,
                dir,
                dev,
                action,
                c.state,
            )
        }),
    decreases dirs.len() - dir, 2int, 0int,
{
    if dir < dirs.len() {
        let (begun, first) = notify_from(c, dirs, dir);
        let request = RequestView::List(dirs[dir as int]);
        let entries = entries_of(listings[dir as int]);
        let here = notifications(entries, 0, dev, action, c.state);
        let rest = whole_notification(dirs, listings, dir + 1, dev, action, c.state);
        assert(whole_notification(dirs, listings, dir, dev, action, c.state) == seq![request] + here
            + rest);
        let (next, then) = notify(
            begun,
            dirs,
            dev,
            action,
            Some(ReplyView::Listing(listings[dir as int])),
        );
        if entries.len() > 0 {
            lemma_told_from_entry(next, dirs, listings, answer, dev, action, (fuel - 1) as nat);
            assert(seq![request] + (here + rest) =~= seq![request] + here + rest);
        } else {
            assert(here =~= Seq::<RequestView>::empty());
            lemma_told_from_dir(begun, dirs, listings, answer, dev, action, dir + 1, (fuel - 1) as nat);
            assert(seq![request] + rest =~= seq![request] + here + rest);
        }
    }
}

/// The notification reaches every script of every directory of
/// notification scripts exactly once: it asks for the listing of each
/// directory in turn and then for one run of each entry, in the order in
/// which the listing gave them, whatever the runs come to; and then it is
/// over.
pub proof fn law_notification_reaches_every_script_once(
    c: CalloutView,
    dirs: Seq<Seq<char>>,
    listings: Seq<Option<Seq<Seq<char>>>>,
    answer: spec_fn(nat, nat) -> ReplyView,
    dev: DeviceView,
    action: Action,
    fuel: nat,
)
    requires
        listings.len() == dirs.len(),
        fuel >= whole_notification(dirs, listings, 0, dev, action, c.state).len(),
    ensures
        ({
            let (begun, first) = notify(c, dirs, dev, action, None);
            told(begun, dirs, listings, answer, dev, action, first.request, fuel)
                == whole_notification(dirs, listings, 0, dev, action, c.state)
        }),
{
    lemma_told_from_dir(c, dirs, listings, answer, dev, action, 0, fuel);
}

/// The requests of a sequence that is answered `fuel` times at most by a
/// world in which directory `d` of the notification scripts lists
/// `listings[d]`, and the run of its entry `k` is answered with
/// `answer(d, k)`.
pub open spec fn sequence_told(
    p: ProgressView,
    env: EnvironmentView,
    listings: Seq<Option<Seq<Seq<char>>>>,
    answer: spec_fn(nat, nat) -> ReplyView,
    dev: DeviceView,
    action: Action,
    force: bool,
    fuel: nat,
) -> Seq<RequestView>
    decreases fuel,
{
    match p {
        ProgressView::Ask { session, echo, notice, request } => if fuel > 0 {
            seq![request] + sequence_told(
                invoke(
                    session,
                    env,
                    dev,
                    action,
                    force,
                    Some(answer_of(session, listings, answer)),
                ),
                env,
                listings,
                answer,
                dev,
                action,
                force,
                (fuel - 1) as nat,
            )
        } else {
            Seq::empty()
        },
        ProgressView::Done { echo, notice, state, failure } => Seq::empty(),
    }
}

/// The requests of a progress, if it goes on.
pub open spec fn request_of(p: ProgressView) -> Option<RequestView> {
    match p {
        ProgressView::Ask { session, echo, notice, request } => Some(request),
        ProgressView::Done { echo, notice, state, failure } => None,
    }
}

/// A sequence in its notification asks for what the notification asks for.
proof fn lemma_sequence_told(
    c: CalloutView,
    echo: Option<Seq<char>>,
    notice: Option<NoticeView>,
    request: Option<RequestView>,
    env: EnvironmentView,
    listings: Seq<Option<Seq<Seq<char>>>>,
    answer: spec_fn(nat, nat) -> ReplyView,
    dev: DeviceView,
    action: Action,
    force: bool,
    fuel: nat,
)
    requires
        coherent(c),
        c.phase == Phase::Notify,
        c.waiting != Waiting::Action,
    ensures
        sequence_told(
            match request {
                Some(request) => ProgressView::Ask { session: c, echo, notice, request },
                None => ProgressView::Done { echo, notice, state: c.state, failure: c.failure },
            },
            env,
            listings,
            answer,
            dev,
            action,
            force,
            fuel,
        ) == told(c, env.notification_dirs, listings, answer, dev, action, request, fuel),
    decreases fuel,
{
    if request is Some && fuel > 0 {
        let reply = answer_of(c, listings, answer);
        lemma_notify_keeps(c, env, dev, action, Some(reply));
        let (next, then) = notify(c, env.notification_dirs, dev, action, Some(reply));
        lemma_sequence_told(
            next,
            then.echo,
            None,
            then.request,
            env,
            listings,
            answer,
            dev,
            action,
            force,
            (fuel - 1) as nat,
        );
    }
}

/// From the start of its notification to its end, a sequence asks for
/// exactly the whole notification: the listing of each directory of
/// notification scripts in turn, and one run of each of its entries as the
/// listing gave them, with the state that the sequence had reached, and
/// for nothing else. This holds however the sequence came to its
/// notification: after the event that follows the action, or after a
/// failure before the action that kept the action from running.
pub proof fn law_sequence_notifies_every_script_once(
    c: CalloutView,
    echo: Option<Seq<char>>,
    notice: Option<NoticeView>,
    env: EnvironmentView,
    listings: Seq<Option<Seq<Seq<char>>>>,
    answer: spec_fn(nat, nat) -> ReplyView,
    dev: DeviceView,
    action: Action,
    force: bool,
    fuel: nat,
)
    requires
        coherent(c),
        c.waiting != Waiting::Action,
        listings.len() == env.notification_dirs.len(),
        fuel >= whole_notification(env.notification_dirs, listings, 0, dev, action, c.state).len(),
    ensures
        sequence_told(
            conclude(c, env, dev, action, echo, notice),
            env,
            listings,
            answer,
            dev,
            action,
            force,
            fuel,
        ) == whole_notification(env.notification_dirs, listings, 0, dev, action, c.state),
{
    let begin = CalloutView { phase: Phase::Notify, ..c };
    lemma_notify_keeps(begin, env, dev, action, None);
    let (session, first) = notify(begin, env.notification_dirs, dev, action, None);
    lemma_sequence_told(
        session,
        echo,
        notice,
        first.request,
        env,
        listings,
        answer,
        dev,
        action,
        force,
        fuel,
    );
    law_notification_reaches_every_script_once(
        begin,
        env.notification_dirs,
        listings,
        answer,
        dev,
        action,
        fuel,
    );
}

/// After a failure before the action that is not forced, the sequence asks
/// for exactly the whole notification, with the state unchanged, and for
/// nothing else: every notification script is run once, and neither the
/// action nor a script for the event after it.
pub proof fn law_failure_is_followed_by_whole_notification(
    c: CalloutView,
    env: EnvironmentView,
    listings: Seq<Option<Seq<Seq<char>>>>,
    answer: spec_fn(nat, nat) -> ReplyView,
    dev: DeviceView,
    action: Action,
    ran: Option<OutputView>,
    fuel: nat,
)
    requires
        decides_before_action(c, env, dev, ran),
        status(ran) != Some(0i32),
        listings.len() == env.notification_dirs.len(),
        fuel >= whole_notification(env.notification_dirs, listings, 0, dev, action, c.state).len(),
    ensures
        sequence_told(
            invoke(c, env, dev, action, false, Some(ReplyView::Ran(ran))),
            env,
            listings,
            answer,
            dev,
            action,
            false,
            fuel,
        ) == whole_notification(env.notification_dirs, listings, 0, dev, action, c.state),
{
    let reply = ReplyView::Ran(ran);
    lemma_callout_keeps(c, env.callout_dirs, dev, Event::Pre, action, Some(reply));
    let (tried, turn) = callout(c, env.callout_dirs, dev, Event::Pre, action, Some(reply));
    let e = CalloutErrorView::InvocationFailure(awaited(c).unwrap(), status(ran));
    assert(turn.next == NextView::Settled(Err(e)));
    law_sequence_notifies_every_script_once(
        CalloutView { failure: Some(e), ..tried },
        turn.echo,
        turn.notice,
        env,
        listings,
        answer,
        dev,
        action,
        false,
        fuel,
    );
}

/// When the script the session is settled on has answered for the event
/// after the action, whatever its exit status, the sequence asks for
/// exactly the whole notification, with the state that the action gave,
/// and for nothing else.
pub proof fn law_event_after_action_is_followed_by_whole_notification(
    c: CalloutView,
    env: EnvironmentView,
    listings: Seq<Option<Seq<Seq<char>>>>,
    answer: spec_fn(nat, nat) -> ReplyView,
    dev: DeviceView,
    action: Action,
    force: bool,
    output: OutputView,
    fuel: nat,
)
    requires
        coherent(c),
        c.phase == Phase::Post,
        c.waiting == Waiting::Sticky,
        c.dir < env.callout_dirs.len(),
        output.code is Some,
        listings.len() == env.notification_dirs.len(),
        fuel >= whole_notification(env.notification_dirs, listings, 0, dev, action, c.state).len(),
    ensures
        sequence_told(
            invoke(c, env, dev, action, force, Some(ReplyView::Ran(Some(output)))),
            env,
            listings,
            answer,
            dev,
            action,
            force,
            fuel,
        ) == whole_notification(env.notification_dirs, listings, 0, dev, action, c.state),
{
    let reply = ReplyView::Ran(Some(output));
    lemma_callout_keeps(c, env.callout_dirs, dev, Event::Post, action, Some(reply));
    let (tried, turn) = callout(c, env.callout_dirs, dev, Event::Post, action, Some(reply));
    match turn.next {
        NextView::Settled(Ok(_)) => {
            law_sequence_notifies_every_script_once(
                tried,
                turn.echo,
                turn.notice,
                env,
                listings,
                answer,
                dev,
                action,
                force,
                fuel,
            );
        },
        NextView::Settled(Err(e)) => {
            law_sequence_notifies_every_script_once(
                tried,
                turn.echo,
                Some(NoticeView::Discarded(e)),
                env,
                listings,
                answer,
                dev,
                action,
                force,
                fuel,
            );
        },
        _ => {},
    }
}

/// Every move of a sequence leaves its session as the laws above take it to
/// be, and so does the move that begins a sequence, whatever the session
/// was before.
pub proof fn law_sequence_stays_coherent(
    c: CalloutView,
    env: EnvironmentView,
    dev: DeviceView,
    action: Action,
    force: bool,
    reply: Option<ReplyView>,
)
    requires
        reply is Some ==> coherent(c),
    ensures
        coherent(CalloutView::fresh()),
        session_of(invoke(c, env, dev, action, force, reply)) matches Some(session) ==> coherent(
            session,
        ),
{
    match reply {
        None => {},
        Some(reply) => {
            if c.waiting == Waiting::Action {
            } else if c.phase == Phase::Notify {
                lemma_notify_keeps(c, env, dev, action, Some(reply));
            } else {
                let event = if c.phase == Phase::Pre {
                    Event::Pre
                } else {
                    Event::Post
                };
                lemma_callout_keeps(c, env.callout_dirs, dev, event, action, Some(reply));
                let (session, turn) = callout(c, env.callout_dirs, dev, event, action, Some(reply));
                match turn.next {
                    NextView::Settled(Ok(_)) => {
                        lemma_conclude(session, env, dev, action, turn.echo, turn.notice);
                    },
                    NextView::Settled(Err(e)) => {
                        lemma_conclude(
                            session,
                            env,
                            dev,
                            action,
                            turn.echo,
                            Some(NoticeView::Discarded(e)),
                        );
                        lemma_conclude(
                            CalloutView { failure: Some(e), ..session },
                            env,
                            dev,
                            action,
                            turn.echo,
                            turn.notice,
                        );
                    },
                    _ => {},
                }
            }
        },
    }
}

/// Until the action is asked for, a sequence that began with a new session
/// has nothing to report: the state is unset, and no failure is kept unless
/// the sequence has gone over to its notification.
pub open spec fn unreported(p: ProgressView) -> bool {
    match p {
        ProgressView::Ask { session, echo, notice, request } => {
            &&& session.state == State::NotRun
            &&& session.phase != Phase::Post
            &&& session.phase == Phase::Pre ==> session.failure is None
        },
        ProgressView::Done { echo, notice, state, failure } => state == State::NotRun,
    }
}

/// The state that a script is told is unset until the action has been
/// answered: a move before that leaves it unset, whether it leads on, to
/// the action, or into the notification.
pub proof fn law_state_is_unset_before_action(
    c: CalloutView,
    env: EnvironmentView,
    dev: DeviceView,
    action: Action,
    force: bool,
    reply: Option<ReplyView>,
)
    requires
        coherent(c),
        c.state == State::NotRun,
        c.failure is None,
        reply is Some ==> c.phase == Phase::Pre && c.waiting != Waiting::Action,
    ensures
        unreported(invoke(c, env, dev, action, force, reply)),
{
    let begun = CalloutView { phase: Phase::Pre, ..c };
    let start = if reply is None {
        CalloutView { waiting: Waiting::Nothing, ..begun }
    } else {
        c
    };
    assert(callout(start, env.callout_dirs, dev, Event::Pre, action, reply) == callout(
        if reply is None {
            begun
        } else {
            c
        },
        env.callout_dirs,
        dev,
        Event::Pre,
        action,
        reply,
    ));
    lemma_callout_keeps(start, env.callout_dirs, dev, Event::Pre, action, reply);
    let (session, turn) = callout(start, env.callout_dirs, dev, Event::Pre, action, reply);
    match turn.next {
        NextView::Settled(Err(e)) => {
            lemma_conclude(
                CalloutView { failure: Some(e), ..session },
                env,
                dev,
                action,
                turn.echo,
                turn.notice,
            );
        },
        _ => {},
    }
}

/// A sequence in its notification moves as the notification moves, and is
/// over when the notification is.
pub proof fn law_sequence_ends_with_notification(
    c: CalloutView,
    env: EnvironmentView,
    dev: DeviceView,
    action: Action,
    force: bool,
    reply: ReplyView,
)
    requires
        c.phase == Phase::Notify,
        c.waiting != Waiting::Action,
    ensures
        ({
            let (session, told) = notify(c, env.notification_dirs, dev, action, Some(reply));
            invoke(c, env, dev, action, force, Some(reply)) == match told.request {
                Some(request) => ProgressView::Ask {
                    session,
                    echo: told.echo,
                    notice: None,
                    request,
                },
                None => ProgressView::Done {
                    echo: told.echo,
                    notice: None,
                    state: session.state,
                    failure: session.failure,
                },
            }
        }),
{
}

} // verus!
