//! Runs of the engine, and what holds of all of them.
//!
//! A run is what the engine goes through when the host answers its effects
//! one after the other. The theorems here are about whole runs: a start
//! without the kill switch installs no rule; a start whose proxy could not
//! be spawned installs none either and ends with that failure; a stop of
//! nothing succeeds; and every operation ends in bounded time.

use vstd::prelude::*;
use crate::engine::laws::{lemma_begin_is_lawful, lemma_step_is_lawful};
use crate::engine::model::EngineView;
use crate::engine::plans::reply_text;
use crate::engine::{Operation, ProgressView, Stage};
use crate::error::NipeErrorView;
use crate::host::{EffectView, ReplyView};
use crate::rules::{installs, HostRules};

verus! {

/// The run that begins with the engine at `s` asking for `p`: the engine and
/// what it asks for, at the beginning and after each reply, up to the end of
/// the operation or of the replies.
pub open spec fn run(s: EngineView, p: ProgressView, replies: Seq<ReplyView>) -> Seq<
    (EngineView, ProgressView),
>
    decreases replies.len(),
{
    if replies.len() == 0 || p is Finished {
        seq![(s, p)]
    } else {
        seq![(s, p)] + run(s.step(replies[0]).0, s.step(replies[0]).1, replies.drop_first())
    }
}

/// The run of a start.
pub open spec fn start_run(s: EngineView, replies: Seq<ReplyView>) -> Seq<
    (EngineView, ProgressView),
> {
    run(s.begin_start().0, s.begin_start().1, replies)
}

/// The run of a stop.
pub open spec fn stop_run(s: EngineView, replies: Seq<ReplyView>) -> Seq<
    (EngineView, ProgressView),
> {
    run(s.begin_stop().0, s.begin_stop().1, replies)
}

/// A run begins where it is said to begin, has at most one entry more than
/// there are replies, and each of its entries but the first is the step from
/// the entry before, on the reply of the same position.
pub proof fn lemma_run_links(s: EngineView, p: ProgressView, replies: Seq<ReplyView>, i: int)
    requires
        0 <= i < run(s, p, replies).len(),
    ensures
        run(s, p, replies).len() <= replies.len() + 1,
        run(s, p, replies)[0] == (s, p),
        i > 0 ==> run(s, p, replies)[i - 1].1 is Perform && run(s, p, replies)[i] == run(
            s,
            p,
            replies,
        )[i - 1].0.step(replies[i - 1]),
    decreases replies.len(),
{
    if replies.len() == 0 || p is Finished {
    } else {
        let next = s.step(replies[0]);
        let rest = replies.drop_first();
        let tail = run(next.0, next.1, rest);
        assert(run(s, p, replies) == seq![(s, p)] + tail);
        lemma_run_links(next.0, next.1, rest, 0);
        if i > 0 {
            lemma_run_links(next.0, next.1, rest, i - 1);
            assert(run(s, p, replies)[i] == tail[i - 1]);
            if i > 1 {
                assert(run(s, p, replies)[i - 1] == tail[i - 2]);
                assert(rest[i - 2] == replies[i - 1]);
            }
        }
    }
}

/// Every entry of a run that begins lawfully is reached lawfully: the engine
/// is consistent all along and keeps its configuration.
pub proof fn lemma_run_stays_consistent(
    s: EngineView,
    p: ProgressView,
    replies: Seq<ReplyView>,
    i: int,
)
    requires
        s.consistent(),
        0 <= i < run(s, p, replies).len(),
    ensures
        run(s, p, replies)[i].0.consistent(),
        run(s, p, replies)[i].0.config == s.config,
        run(s, p, replies)[i].0.platform == s.platform,
    decreases i,
{
    lemma_run_links(s, p, replies, i);
    if i > 0 {
        lemma_run_stays_consistent(s, p, replies, i - 1);
        lemma_step_is_lawful(run(s, p, replies)[i - 1].0, replies[i - 1]);
    }
}

/// Along a run, from a consistent engine whose policy does not ask for the
/// kill switch, no effect after the first installs a rule.
pub proof fn lemma_run_without_kill_switch(
    s: EngineView,
    p: ProgressView,
    replies: Seq<ReplyView>,
    i: int,
)
    requires
        s.consistent(),
        !s.config.firewall.enable_kill_switch,
        0 < i < run(s, p, replies).len(),
    ensures
        run(s, p, replies)[i].1 matches ProgressView::Perform(e) ==> !installs(e),
{
    lemma_run_links(s, p, replies, i);
    lemma_run_stays_consistent(s, p, replies, i - 1);
    lemma_step_is_lawful(run(s, p, replies)[i - 1].0, replies[i - 1]);
}

/// Where the policy does not ask for the kill switch, a start asks for no
/// effect that installs a rule, whatever the host replies.
pub proof fn theorem_start_without_kill_switch_installs_nothing(
    s: EngineView,
    replies: Seq<ReplyView>,
    i: int,
)
    requires
        !s.config.firewall.enable_kill_switch,
        0 <= i < start_run(s, replies).len(),
    ensures
        start_run(s, replies)[i].1 matches ProgressView::Perform(e) ==> !installs(e),
{
    lemma_begin_is_lawful(s);
    let (first, asked) = s.begin_start();
    lemma_run_links(first, asked, replies, i);
    if i > 0 {
        lemma_run_without_kill_switch(first, asked, replies, i);
    }
}

/// A stop asks for no effect that installs a rule, whatever the policy and
/// whatever the host replies.
pub proof fn theorem_stop_installs_nothing(s: EngineView, replies: Seq<ReplyView>, i: int)
    requires
        0 <= i < stop_run(s, replies).len(),
    ensures
        stop_run(s, replies)[i].0.operation != Operation::Starting,
        stop_run(s, replies)[i].1 matches ProgressView::Perform(e) ==> !installs(e),
    decreases i,
{
    lemma_begin_is_lawful(s);
    let (first, asked) = s.begin_stop();
    lemma_run_links(first, asked, replies, i);
    if i > 0 {
        theorem_stop_installs_nothing(s, replies, i - 1);
        lemma_run_stays_consistent(first, asked, replies, i - 1);
        let before = stop_run(s, replies)[i - 1].0;
        lemma_step_is_lawful(before, replies[i - 1]);
        lemma_not_starting_stays_so(before, replies[i - 1]);
    }
}

/// An engine that is not starting does not begin to by a reply, and what it
/// asks for installs no rule.
pub proof fn lemma_not_starting_stays_so(s: EngineView, reply: ReplyView)
    requires
        s.consistent(),
        s.operation != Operation::Starting,
    ensures
        s.step(reply).0.operation != Operation::Starting,
        s.step(reply).1 matches ProgressView::Perform(e) ==> !installs(e),
{
    lemma_step_is_lawful(s, reply);
    crate::engine::laws::lemma_operation_is_kept(s, reply);
}

/// Up to the moment at which the proxy is spawned a start installs no rule:
/// if the engine of entry `k` of the run of a start is about to spawn, no
/// effect asked for up to there installs one.
pub proof fn theorem_start_installs_nothing_before_spawn(
    s: EngineView,
    replies: Seq<ReplyView>,
    k: int,
    i: int,
)
    requires
        0 <= i <= k < start_run(s, replies).len(),
        start_run(s, replies)[k].0.stage == Stage::Spawn,
    ensures
        start_run(s, replies)[i].1 matches ProgressView::Perform(e) ==> !installs(e),
{
    lemma_begin_is_lawful(s);
    let (first, asked) = s.begin_start();
    lemma_run_links(first, asked, replies, i);
    if i > 0 {
        lemma_run_stays_consistent(first, asked, replies, i - 1);
        let before = start_run(s, replies)[i - 1].0;
        lemma_step_is_lawful(before, replies[i - 1]);
        let here = start_run(s, replies)[i].0;
        if here.stage == Stage::Activate {
            lemma_run_stays_consistent(first, asked, replies, i);
            lemma_run_stays_consistent(first, asked, replies, k);
            lemma_order_is_kept_along(first, asked, replies, i, k);
            assert(crate::engine::laws::place(here) == 9);
            assert(crate::engine::laws::place(start_run(s, replies)[k].0) == 6);
        }
    }
}

/// The stages of an operation are gone through in order: along a run the
/// engine never comes back to an earlier one.
pub proof fn lemma_order_is_kept_along(
    s: EngineView,
    p: ProgressView,
    replies: Seq<ReplyView>,
    i: int,
    k: int,
)
    requires
        s.consistent(),
        0 <= i <= k < run(s, p, replies).len(),
    ensures
        crate::engine::laws::place(run(s, p, replies)[i].0) <= crate::engine::laws::place(
            run(s, p, replies)[k].0,
        ),
    decreases k - i,
{
    if i < k {
        lemma_order_is_kept_along(s, p, replies, i + 1, k);
        lemma_run_links(s, p, replies, i + 1);
        lemma_run_stays_consistent(s, p, replies, i);
        crate::engine::laws::lemma_order_is_kept(run(s, p, replies)[i].0, replies[i]);
    }
}

/// The effects that were asked for along a run, in order. An entry that
/// ended the operation asked for none; it stands as a wait of no length.
pub open spec fn asked(entries: Seq<(EngineView, ProgressView)>) -> Seq<EffectView> {
    Seq::new(
        entries.len(),
        |i: int|
            match entries[i].1 {
                ProgressView::Perform(e) => e,
                ProgressView::Finished(r) => EffectView::Sleep { seconds: 0 },
            },
    )
}

/// If the proxy cannot be spawned the start fails with what the host said of
/// the spawn, and the firewall is left as it was found.
///
/// Let entry `k` of the run of a start be the engine about to spawn, and let
/// the reply to it say that the proxy was not spawned. Then no effect of the
/// run installs a rule; wherever the run ends, it ends with that failure;
/// and on a host on which the kill switch was off the rules in force
/// after the run are those in force before, whichever effects succeeded.
pub proof fn theorem_missing_binary_fails_the_start(
    s: EngineView,
    replies: Seq<ReplyView>,
    k: int,
    host: HostRules,
    done: Seq<bool>,
)
    requires
        0 <= k < replies.len(),
        k < start_run(s, replies).len(),
        start_run(s, replies)[k].0.stage == Stage::Spawn,
        !(replies[k] is Spawned),
        crate::rules::kill_switch_off(host),
    ensures
        forall|i: int|
            0 <= i < start_run(s, replies).len() ==> match (#[trigger] start_run(s, replies)[i]).1 {
                ProgressView::Perform(e) => !installs(e),
                ProgressView::Finished(result) => result == Err::<(), NipeErrorView>(
                    NipeErrorView::TorStartFailed(reply_text(replies[k])),
                ),
            },
        crate::rules::same_rules(
            crate::rules::after_effects(host, asked(start_run(s, replies)), done),
            host,
        ),
{
    let entries = start_run(s, replies);
    assert forall|i: int| 0 <= i < entries.len() implies match (#[trigger] entries[i]).1 {
        ProgressView::Perform(e) => !installs(e),
        ProgressView::Finished(result) => result == Err::<(), NipeErrorView>(
            NipeErrorView::TorStartFailed(reply_text(replies[k])),
        ),
    } by {
        if i <= k {
            theorem_start_installs_nothing_before_spawn(s, replies, k, i);
            lemma_entries_before_are_open(s, replies, i, k);
        } else {
            lemma_after_failed_spawn(s, replies, k, i);
        }
    }
    let effects = asked(entries);
    assert forall|i: int| 0 <= i < effects.len() implies !installs(#[trigger] effects[i]) by {
        assert(entries[i].1 is Perform ==> !installs(entries[i].1->Perform_0));
    }
    crate::rules::lemma_no_install_keeps_kill_switch_off(host, effects, done);
}

/// Every entry of a run before another one asks for an effect.
pub proof fn lemma_entries_before_are_open(
    s: EngineView,
    replies: Seq<ReplyView>,
    i: int,
    k: int,
)
    requires
        0 <= i <= k < start_run(s, replies).len(),
        start_run(s, replies)[k].0.stage == Stage::Spawn,
    ensures
        start_run(s, replies)[i].1 is Perform,
{
    lemma_begin_is_lawful(s);
    let (first, begun) = s.begin_start();
    if i < k {
        lemma_run_links(first, begun, replies, i + 1);
    } else {
        lemma_run_stays_consistent(first, begun, replies, k);
        lemma_run_links(first, begun, replies, k);
        if k > 0 {
            lemma_run_stays_consistent(first, begun, replies, k - 1);
            lemma_step_is_lawful(start_run(s, replies)[k - 1].0, replies[k - 1]);
        }
    }
}

/// The entries of the run of a start after a spawn that failed.
pub proof fn lemma_after_failed_spawn(s: EngineView, replies: Seq<ReplyView>, k: int, i: int)
    requires
        0 <= k < i < start_run(s, replies).len(),
        k < replies.len(),
        start_run(s, replies)[k].0.stage == Stage::Spawn,
        !(replies[k] is Spawned),
    ensures
        match start_run(s, replies)[i].1 {
            ProgressView::Perform(e) => !installs(e) && start_run(s, replies)[i].0.rolling_back()
                && start_run(s, replies)[i].0.failure == Some(
                NipeErrorView::TorStartFailed(reply_text(replies[k])),
            ),
            ProgressView::Finished(result) => result == Err::<(), NipeErrorView>(
                NipeErrorView::TorStartFailed(reply_text(replies[k])),
            ),
        },
    decreases i,
{
    lemma_begin_is_lawful(s);
    let (first, begun) = s.begin_start();
    lemma_run_links(first, begun, replies, i);
    lemma_run_stays_consistent(first, begun, replies, i - 1);
    let before = start_run(s, replies)[i - 1].0;
    lemma_step_is_lawful(before, replies[i - 1]);
    if i - 1 == k {
        crate::engine::laws::lemma_failed_spawn(before, replies[k]);
    } else {
        lemma_after_failed_spawn(s, replies, k, i - 1);
    }
}

/// Whether a stop of nothing is under way and nothing has gone wrong: the
/// engine holds no process, and the plan of the teardown, once it is in
/// flight, has met no failure and lets every refusal pass.
pub open spec fn stopping_quietly(s: EngineView) -> bool {
    &&& s.consistent()
    &&& s.operation == Operation::Stopping
    &&& s.tor_process is None
    &&& s.stage == Stage::Teardown ==> s.run.failure is None && crate::plan::lenient(s.run.steps)
}

/// One reply to a stop of nothing: unless the host could not carry the effect
/// out at all, the stop goes on quietly or ends well.
pub proof fn lemma_stop_goes_on_quietly(s: EngineView, reply: ReplyView)
    requires
        stopping_quietly(s),
        !(reply is Failed),
    ensures
        match s.step(reply).1 {
            ProgressView::Perform(e) => stopping_quietly(s.step(reply).0),
            ProgressView::Finished(result) => result is Ok,
        },
{
    lemma_step_is_lawful(s, reply);
    crate::engine::laws::lemma_operation_is_kept(s, reply);
    if s.stage == Stage::Route || s.stage == Stage::Service {
        crate::engine::laws::lemma_teardown_begins_leniently(s, reply);
    }
    if s.stage == Stage::Teardown {
        let step = s.run.steps[s.run.next as int];
        assert(step.tolerance != crate::plan::Tolerance::Strict);
        assert(step.failure(reply) is None);
    }
}

/// A stop on a host where nothing was ever switched on succeeds.
///
/// Let the engine hold no process. If the host carries every effect out,
/// whether the command then reports success or failure, and whether the
/// uplink can be found out or not, the stop ends well wherever it ends.
pub proof fn theorem_stop_of_nothing_succeeds(s: EngineView, replies: Seq<ReplyView>, i: int)
    requires
        s.tor_process is None,
        crate::plan::all_carried_out(replies),
        0 <= i < stop_run(s, replies).len(),
    ensures
        match stop_run(s, replies)[i].1 {
            ProgressView::Perform(e) => stopping_quietly(stop_run(s, replies)[i].0),
            ProgressView::Finished(result) => result is Ok,
        },
    decreases i,
{
    lemma_begin_is_lawful(s);
    let (first, begun) = s.begin_stop();
    lemma_run_links(first, begun, replies, i);
    if i == 0 {
        crate::engine::laws::lemma_stop_begins_leniently(s);
    } else {
        theorem_stop_of_nothing_succeeds(s, replies, i - 1);
        let before = stop_run(s, replies)[i - 1].0;
        assert(!(replies[i - 1] is Failed));
        lemma_stop_goes_on_quietly(before, replies[i - 1]);
    }
}

/// Every operation ends in bounded time: along a run the budget of the
/// engine goes down by at least one with each reply, so that entry `i` of a
/// run can ask for an effect only while `i` is within the budget that the run
/// began with.
pub proof fn theorem_operation_ends_in_time(
    s: EngineView,
    p: ProgressView,
    replies: Seq<ReplyView>,
    i: int,
)
    requires
        s.consistent(),
        0 <= i < run(s, p, replies).len(),
        run(s, p, replies)[i].1 is Perform,
    ensures
        crate::engine::laws::budget(run(s, p, replies)[i].0) + i <= crate::engine::laws::budget(s),
    decreases i,
{
    lemma_run_links(s, p, replies, i);
    if i > 0 {
        theorem_operation_ends_in_time(s, p, replies, i - 1);
        lemma_run_stays_consistent(s, p, replies, i - 1);
        crate::engine::laws::lemma_budget_goes_down(run(s, p, replies)[i - 1].0, replies[i - 1]);
    }
}

/// A start asks for fewer than two hundred effects and a stop for no more
/// than ten, whatever the host replies: after that many replies the
/// operation has ended.
pub proof fn theorem_start_and_stop_end_in_time(s: EngineView, replies: Seq<ReplyView>, i: int)
    requires
        0 <= i,
    ensures
        i < start_run(s, replies).len() && start_run(s, replies)[i].1 is Perform ==> i <= 193,
        i < stop_run(s, replies).len() && stop_run(s, replies)[i].1 is Perform ==> i <= 10,
{
    lemma_begin_is_lawful(s);
    crate::engine::laws::lemma_budget_at_the_beginning(s);
    if i < start_run(s, replies).len() && start_run(s, replies)[i].1 is Perform {
        theorem_operation_ends_in_time(s.begin_start().0, s.begin_start().1, replies, i);
    }
    if i < stop_run(s, replies).len() && stop_run(s, replies)[i].1 is Perform {
        theorem_operation_ends_in_time(s.begin_stop().0, s.begin_stop().1, replies, i);
    }
}

/// A run goes on as long as the engine asks for an effect and there is a
/// reply to it.
pub proof fn lemma_run_goes_on(s: EngineView, p: ProgressView, replies: Seq<ReplyView>, i: int)
    requires
        0 <= i < run(s, p, replies).len(),
        i < replies.len(),
        run(s, p, replies)[i].1 is Perform,
    ensures
        i + 1 < run(s, p, replies).len(),
    decreases replies.len(),
{
    let next = s.step(replies[0]);
    let rest = replies.drop_first();
    let tail = run(next.0, next.1, rest);
    assert(run(s, p, replies) == seq![(s, p)] + tail);
    if i > 0 {
        assert(run(s, p, replies)[i] == tail[i - 1]);
        lemma_run_goes_on(next.0, next.1, rest, i - 1);
    }
}

/// With a check that always fails a start reports the timeout of the
/// bootstrap after sixty attempts and sixty waits, not before and not after.
///
/// Let the engine be at the first attempt of the bootstrap, and let none of
/// the replies to an attempt confirm the proxy path. Then the engine goes on
/// asking, an attempt and a wait in turn, through all of the hundred and
/// twenty replies, and with the last of them the start has failed with the
/// timeout and is being rolled back.
pub proof fn theorem_unconfirmed_bootstrap_times_out(
    s: EngineView,
    replies: Seq<ReplyView>,
    i: int,
)
    requires
        s.consistent(),
        s.stage == Stage::Bootstrap,
        s.bootstrap == crate::bootstrap::Bootstrap::initial(s.config.tor.socks_port),
        crate::bootstrap::never_confirmed(replies),
        replies.len() == 2 * crate::bootstrap::MAX_ATTEMPTS,
        0 <= i <= replies.len(),
    ensures
        i < run(s, ProgressView::Perform(s.bootstrap.wants().unwrap()), replies).len(),
        i < replies.len() ==> ({
            let entry = run(s, ProgressView::Perform(s.bootstrap.wants().unwrap()), replies)[i];
            &&& entry.0.stage == Stage::Bootstrap
            &&& entry.0.consistent()
            &&& entry.0.bootstrap == s.bootstrap.after_all(replies.take(i))
            &&& entry.1 == ProgressView::Perform(entry.0.bootstrap.wants().unwrap())
        }),
        i == replies.len() ==> ({
            let entry = run(s, ProgressView::Perform(s.bootstrap.wants().unwrap()), replies)[i];
            &&& entry.0.rolling_back()
            &&& entry.0.failure == Some(NipeErrorView::BootstrapTimeout)
            &&& entry.1 is Perform
        }),
    decreases i,
{
    let first = ProgressView::Perform(s.bootstrap.wants().unwrap());
    let entries = run(s, first, replies);
    lemma_run_links(s, first, replies, 0);
    if i == 0 {
        assert(replies.take(0) =~= Seq::<ReplyView>::empty());
    } else {
        theorem_unconfirmed_bootstrap_times_out(s, replies, i - 1);
        lemma_run_goes_on(s, first, replies, i - 1);
        lemma_run_links(s, first, replies, i);
        let before = entries[i - 1].0;
        let reply = replies[i - 1];
        lemma_step_is_lawful(before, reply);
        let seen = replies.take(i - 1);
        let now = replies.take(i);
        assert(now =~= seen + seq![reply]);
        crate::bootstrap::lemma_after_all_splits(s.bootstrap, seen, seq![reply]);
        let monitor = s.bootstrap.after_all(seen);
        assert(seq![reply].drop_first() =~= Seq::<ReplyView>::empty());
        assert(monitor.after_all(seq![reply]) == monitor.after(reply).after_all(
            seq![reply].drop_first(),
        ));
        assert(s.bootstrap.after_all(now) == monitor.after(reply));
        assert forall|j: int| 0 <= j < now.len() && j % 2 == 0 implies crate::status::path_error(
            #[trigger] now[j],
        ) is Some by {
            assert(now[j] == replies[j]);
        }
        crate::bootstrap::lemma_always_failing_check_times_out(s.config.tor.socks_port, now);
        if i == replies.len() {
            crate::engine::laws::lemma_bootstrap_timeout_fails(before, reply);
        }
    }
}

} // verus!
