//! The bootstrap monitor: a bounded polling loop that proves the proxy path
//! usable end to end.
//!
//! Each attempt is a real request through the proxy to the verification
//! endpoint. The first answer that confirms the path ends the loop; after
//! each other answer the monitor waits a second. When the bound is reached
//! without a confirmation the bootstrap has timed out.

use vstd::prelude::*;
use vstd::string::*;
use crate::error::{NipeError, NipeErrorView};
use crate::host::{Effect, EffectView, Reply, ReplyView};
use crate::status::{check_effect, check_proxy_path, check_request, path_error};

verus! {

/// How many attempts are made.
pub const MAX_ATTEMPTS: u32 = 60;

/// How long one attempt may take, in seconds.
pub const ATTEMPT_TIMEOUT_SECS: u64 = 5;

/// How long the monitor waits after an attempt that failed, in seconds.
pub const PAUSE_SECS: u64 = 1;

/// Where the monitor stands.
#[derive(Clone, Copy, Debug, PartialEq, Eq, Structural)]
pub enum Phase {
    /// A request is under way.
    Checking,
    /// The wait after a failed attempt is under way.
    Pausing,
    /// The path was confirmed.
    Complete,
    /// The bound was reached.
    TimedOut,
}

/// The monitor. Its value is all there is to it.
#[derive(Clone, Copy, Debug, PartialEq, Eq, Structural)]
pub struct Bootstrap {
    /// The port of the proxy that is being checked.
    pub socks_port: u16,
    /// How many attempts have failed.
    pub failed: u32,
    pub phase: Phase,
}

impl Bootstrap {
    /// The monitor before its first attempt.
    pub open spec fn initial(socks_port: u16) -> Bootstrap {
        Bootstrap { socks_port, failed: 0, phase: Phase::Checking }
    }

    /// Whether the monitor has come to its end.
    pub open spec fn finished(self) -> bool {
        self.phase == Phase::Complete || self.phase == Phase::TimedOut
    }

    /// What the monitor asks of the host now, if it has not finished.
    pub open spec fn wants(self) -> Option<EffectView> {
        match self.phase {
            Phase::Checking => Some(check_request(self.socks_port, ATTEMPT_TIMEOUT_SECS)),
            Phase::Pausing => Some(EffectView::Sleep { seconds: PAUSE_SECS }),
            _ => None,
        }
    }

    /// The monitor after the host's reply to what it asked.
    pub open spec fn after(self, reply: ReplyView) -> Bootstrap {
        match self.phase {
            Phase::Checking => if path_error(reply) is None {
                Bootstrap { phase: Phase::Complete, ..self }
            } else if self.failed < MAX_ATTEMPTS {
                Bootstrap { failed: (self.failed + 1) as u32, phase: Phase::Pausing, ..self }
            } else {
                Bootstrap { phase: Phase::TimedOut, ..self }
            },
            Phase::Pausing => if self.failed >= MAX_ATTEMPTS {
                Bootstrap { phase: Phase::TimedOut, ..self }
            } else {
                Bootstrap { phase: Phase::Checking, ..self }
            },
            _ => self,
        }
    }

    /// The monitor after a sequence of replies.
    pub open spec fn after_all(self, replies: Seq<ReplyView>) -> Bootstrap
        decreases replies.len(),
    {
        if replies.len() == 0 {
            self
        } else {
            self.after(replies[0]).after_all(replies.drop_first())
        }
    }

    /// How the bootstrap ended, once the monitor has finished.
    pub open spec fn outcome(self) -> Option<NipeErrorView> {
        if self.phase == Phase::TimedOut {
            Some(NipeErrorView::BootstrapTimeout)
        } else {
            None
        }
    }

    /// Starts the monitor for the proxy on `socks_port`.
    pub fn new(socks_port: u16) -> (b: Bootstrap)
        ensures
            b == Bootstrap::initial(socks_port),
    {
        Bootstrap { socks_port, failed: 0, phase: Phase::Checking }
    }

    /// Whether the monitor has come to its end.
    pub fn is_finished(&self) -> (b: bool)
        ensures
            b == self.finished(),
    {
        match self.phase {
            Phase::Complete => true,
            Phase::TimedOut => true,
            _ => false,
        }
    }

    /// What the monitor asks of the host now, if it has not finished.
    pub fn current(&self) -> (e: Option<Effect>)
        ensures
            e is Some <==> self.wants() is Some,
            e is Some ==> Some(e.unwrap()@) == self.wants(),
    {
        match self.phase {
            Phase::Checking => Some(check_effect(self.socks_port, ATTEMPT_TIMEOUT_SECS)),
            Phase::Pausing => Some(Effect::Sleep { seconds: PAUSE_SECS }),
            _ => None,
        }
    }

    /// Takes the host's reply to what the monitor asked.
    pub fn record(&mut self, reply: &Reply)
        ensures
            *final(self) == old(self).after(reply@),
    {
        match self.phase {
            Phase::Checking => {
                if check_proxy_path(reply).is_ok() {
                    self.phase = Phase::Complete;
                } else if self.failed < MAX_ATTEMPTS {
                    self.failed = self.failed + 1;
                    self.phase = Phase::Pausing;
                } else {
                    self.phase = Phase::TimedOut;
                }
            },
            Phase::Pausing => {
                if self.failed >= MAX_ATTEMPTS {
                    self.phase = Phase::TimedOut;
                } else {
                    self.phase = Phase::Checking;
                }
            },
            _ => {},
        }
    }

    /// How the bootstrap ended.
    pub fn verdict(&self) -> (r: Result<(), NipeError>)
        ensures
            r is Ok <==> self.outcome() is None,
            r is Err ==> Some(r->Err_0@) == self.outcome(),
    {
        match self.phase {
            Phase::TimedOut => Err(NipeError::BootstrapTimeout),
            _ => Ok(()),
        }
    }
}

/// Whether the replies at even positions, which answer the requests, all fail
/// to confirm the path.
pub open spec fn never_confirmed(replies: Seq<ReplyView>) -> bool {
    forall|i: int| 0 <= i < replies.len() && i % 2 == 0 ==> path_error(#[trigger] replies[i]) is Some
}

/// While the checks keep failing the monitor alternates between a request and
/// a wait: after `2 * k` replies, `k` below the bound, it has counted `k`
/// failures and is about to make attempt `k + 1`.
pub proof fn lemma_failing_checks_alternate(socks_port: u16, replies: Seq<ReplyView>, k: nat)
    requires
        never_confirmed(replies),
        replies.len() == 2 * k,
        k < MAX_ATTEMPTS,
    ensures
        Bootstrap::initial(socks_port).after_all(replies) == (Bootstrap {
            socks_port,
            failed: k as u32,
            phase: Phase::Checking,
        }),
    decreases k,
{
    let start = Bootstrap::initial(socks_port);
    if k == 0 {
        assert(replies.len() == 0);
    } else {
        let front = replies.take(2 * k - 2);
        assert forall|i: int| 0 <= i < front.len() && i % 2 == 0 implies path_error(
            #[trigger] front[i],
        ) is Some by {
            assert(front[i] == replies[i]);
        }
        lemma_failing_checks_alternate(socks_port, front, (k - 1) as nat);
        let mid = start.after_all(front);
        let tail = replies.skip(2 * k - 2);
        assert(tail.len() == 2);
        assert(tail[0] == replies[2 * k - 2]);
        assert(path_error(replies[2 * k - 2]) is Some);
        lemma_after_all_splits(start, front, tail);
        assert(front + tail =~= replies);
        lemma_after_two(mid, tail);
    }
}

/// Two replies are taken one after the other.
pub proof fn lemma_after_two(b: Bootstrap, replies: Seq<ReplyView>)
    requires
        replies.len() == 2,
    ensures
        b.after_all(replies) == b.after(replies[0]).after(replies[1]),
{
    let rest = replies.drop_first();
    assert(rest.len() == 1);
    assert(rest[0] == replies[1]);
    assert(rest.drop_first().len() == 0);
    let one = b.after(replies[0]);
    assert(b.after_all(replies) == one.after_all(rest));
    assert(one.after_all(rest) == one.after(rest[0]).after_all(rest.drop_first()));
    assert(one.after(rest[0]).after_all(rest.drop_first()) == one.after(rest[0]));
}

/// Feeding two runs of replies one after the other is feeding them as one.
pub proof fn lemma_after_all_splits(b: Bootstrap, first: Seq<ReplyView>, second: Seq<ReplyView>)
    ensures
        b.after_all(first + second) == b.after_all(first).after_all(second),
    decreases first.len(),
{
    if first.len() == 0 {
        assert(first + second =~= second);
    } else {
        assert((first + second).drop_first() =~= first.drop_first() + second);
        assert((first + second)[0] == first[0]);
        lemma_after_all_splits(b.after(first[0]), first.drop_first(), second);
    }
}

/// With a check that always fails the bootstrap times out after exactly the
/// bound of attempts, each followed by one wait: not before the last wait is
/// over, and with the last wait it has.
pub proof fn lemma_always_failing_check_times_out(socks_port: u16, replies: Seq<ReplyView>)
    requires
        never_confirmed(replies),
        replies.len() <= 2 * MAX_ATTEMPTS,
    ensures
        replies.len() < 2 * MAX_ATTEMPTS ==> !Bootstrap::initial(socks_port).after_all(
            replies,
        ).finished(),
        replies.len() == 2 * MAX_ATTEMPTS ==> Bootstrap::initial(socks_port).after_all(replies).phase
            == Phase::TimedOut,
        replies.len() == 2 * MAX_ATTEMPTS ==> Bootstrap::initial(socks_port).after_all(
            replies,
        ).outcome() == Some(NipeErrorView::BootstrapTimeout),
{
    let start = Bootstrap::initial(socks_port);
    let n = replies.len();
    let k = n / 2;
    if n == 2 * MAX_ATTEMPTS {
        let front = replies.take(n - 2);
        let tail = replies.skip(n - 2);
        assert forall|i: int| 0 <= i < front.len() && i % 2 == 0 implies path_error(
            #[trigger] front[i],
        ) is Some by {
            assert(front[i] == replies[i]);
        }
        lemma_failing_checks_alternate(socks_port, front, (MAX_ATTEMPTS - 1) as nat);
        lemma_after_all_splits(start, front, tail);
        assert(front + tail =~= replies);
        assert(tail[0] == replies[n - 2]);
        assert(path_error(replies[n - 2]) is Some);
        let mid = start.after_all(front);
        lemma_after_two(mid, tail);
    } else if n % 2 == 0 {
        lemma_failing_checks_alternate(socks_port, replies, k as nat);
    } else {
        let front = replies.take(n - 1);
        let tail = replies.skip(n - 1);
        assert forall|i: int| 0 <= i < front.len() && i % 2 == 0 implies path_error(
            #[trigger] front[i],
        ) is Some by {
            assert(front[i] == replies[i]);
        }
        lemma_failing_checks_alternate(socks_port, front, k as nat);
        lemma_after_all_splits(start, front, tail);
        assert(front + tail =~= replies);
        assert(tail[0] == replies[n - 1]);
        assert(path_error(replies[n - 1]) is Some);
        let mid = start.after_all(front);
        assert(tail.drop_first().len() == 0);
        assert(mid.after_all(tail) == mid.after(tail[0]).after_all(tail.drop_first()));
        assert(mid.after(tail[0]).after_all(tail.drop_first()) == mid.after(tail[0]));
    }
}

/// A confirmation ends the loop at once, whatever went before.
pub proof fn lemma_confirmation_completes(b: Bootstrap, reply: ReplyView)
    requires
        b.phase == Phase::Checking,
        path_error(reply) is None,
    ensures
        b.after(reply).phase == Phase::Complete,
        b.after(reply).outcome() is None,
{
}

} // verus!
