//! Plans: fixed sequences of effects, and the cursor that walks one.
//!
//! A plan is a list of [`Step`]s. Each step names an effect, says which of its
//! failures are let pass, and how a failure that counts becomes an error. A
//! [`PlanRun`] hands the effects out in order and keeps the first error.

use vstd::prelude::*;
use vstd::string::*;
use crate::error::{ErrorKind, NipeError, NipeErrorView};
use crate::host::{Effect, EffectView, Reply, ReplyView};

verus! {

/// Which failures of a step are let pass.
#[derive(Clone, Copy, Debug, PartialEq, Eq, Structural)]
pub enum Tolerance {
    /// None: an effect that could not be carried out counts, and so does a
    /// command that ran and reported failure.
    Strict,
    /// A command that ran and reported failure is let pass.
    ExitStatus,
    /// Every failure is let pass.
    Everything,
}

/// What a run does after a failure that counts.
#[derive(Clone, Copy, Debug, PartialEq, Eq, Structural)]
pub enum Mode {
    /// It ends there.
    HaltOnFailure,
    /// It goes on to the last step and reports the first failure.
    RunEverything,
}

/// One step of a plan.
#[derive(Clone, Debug, PartialEq, Eq)]
pub struct Step {
    pub effect: Effect,
    pub tolerance: Tolerance,
    /// The kind of error that a failure of this step raises.
    pub kind: ErrorKind,
    /// What the error's reason says before the upstream text.
    pub context: String,
}

/// The mathematical value of a [`Step`].
pub struct StepView {
    pub effect: EffectView,
    pub tolerance: Tolerance,
    pub kind: ErrorKind,
    pub context: Seq<char>,
}

impl View for Step {
    type V = StepView;

    open spec fn view(&self) -> StepView {
        StepView {
            effect: self.effect@,
            tolerance: self.tolerance,
            kind: self.kind,
            context: self.context@,
        }
    }
}

/// The mathematical value of a list of steps.
pub open spec fn steps_view(steps: Seq<Step>) -> Seq<StepView> {
    Seq::new(steps.len(), |i: int| steps[i]@)
}

/// The upstream text of the failure that `reply` reports, if it reports one
/// that `tolerance` does not let pass.
pub open spec fn failure_text(tolerance: Tolerance, reply: ReplyView) -> Option<Seq<char>> {
    match reply {
        ReplyView::Failed(text) => if tolerance == Tolerance::Everything {
            None
        } else {
            Some(text)
        },
        ReplyView::Exited { success, stdout, stderr } => if !success && tolerance
            == Tolerance::Strict {
            Some(stderr)
        } else {
            None
        },
        _ => None,
    }
}

impl StepView {
    /// The error that `reply` raises at this step, if any.
    pub open spec fn failure(self, reply: ReplyView) -> Option<NipeErrorView> {
        match failure_text(self.tolerance, reply) {
            Some(text) => Some(NipeErrorView::of_kind(self.kind, self.context + text)),
            None => None,
        }
    }
}

impl Step {
    /// A step that lets no failure pass.
    pub fn strict(effect: Effect, kind: ErrorKind, context: &str) -> (s: Step)
        ensures
            s@ == (StepView {
                effect: effect@,
                tolerance: Tolerance::Strict,
                kind,
                context: context@,
            }),
    {
        Step { effect, tolerance: Tolerance::Strict, kind, context: String::from_str(context) }
    }

    /// A step with the given tolerance that raises `kind` with the bare
    /// upstream text.
    pub fn plain(effect: Effect, tolerance: Tolerance, kind: ErrorKind) -> (s: Step)
        ensures
            s@ == (StepView { effect: effect@, tolerance, kind, context: Seq::empty() }),
    {
        Step { effect, tolerance, kind, context: String::new() }
    }

    /// The error that `reply` raises at this step, if any.
    pub fn failure(&self, reply: &Reply) -> (e: Option<NipeError>)
        ensures
            e is Some <==> self@.failure(reply@) is Some,
            e is Some ==> e.unwrap()@ == self@.failure(reply@).unwrap(),
    {
        match reply {
            Reply::Failed(text) => {
                match self.tolerance {
                    Tolerance::Everything => None,
                    _ => Some(
                        NipeError::of_kind(self.kind, self.context.clone().concat(text.as_str())),
                    ),
                }
            },
            Reply::Exited { success, stdout, stderr } => {
                match self.tolerance {
                    Tolerance::Strict => {
                        if !*success {
                            Some(
                                NipeError::of_kind(
                                    self.kind,
                                    self.context.clone().concat(stderr.as_str()),
                                ),
                            )
                        } else {
                            None
                        }
                    },
                    _ => None,
                }
            },
            _ => None,
        }
    }
}

/// The mathematical value of an optional error.
pub open spec fn error_view(e: Option<NipeError>) -> Option<NipeErrorView> {
    match e {
        Some(e) => Some(e@),
        None => None,
    }
}

/// The mathematical value of a [`PlanRun`].
pub struct PlanRunView {
    pub steps: Seq<StepView>,
    /// How many steps have been answered.
    pub next: nat,
    pub mode: Mode,
    /// The first failure that counted.
    pub failure: Option<NipeErrorView>,
}

impl PlanRunView {
    /// The run at the start of a plan.
    pub open spec fn start(steps: Seq<StepView>, mode: Mode) -> PlanRunView {
        PlanRunView { steps, next: 0, mode, failure: None }
    }

    /// Whether no further effect is handed out.
    pub open spec fn finished(self) -> bool {
        self.next >= self.steps.len() || (self.mode == Mode::HaltOnFailure
            && self.failure is Some)
    }

    /// The run after the reply to its current step.
    pub open spec fn record(self, reply: ReplyView) -> PlanRunView {
        if self.finished() {
            self
        } else {
            PlanRunView {
                next: self.next + 1,
                failure: if self.failure is Some {
                    self.failure
                } else {
                    self.steps[self.next as int].failure(reply)
                },
                ..self
            }
        }
    }

    /// The run after a sequence of replies, one per step that was handed out.
    pub open spec fn feed(self, replies: Seq<ReplyView>) -> PlanRunView
        decreases replies.len(),
    {
        if replies.len() == 0 {
            self
        } else {
            self.record(replies[0]).feed(replies.drop_first())
        }
    }
}

/// A cursor over a plan.
#[derive(Debug)]
pub struct PlanRun {
    steps: Vec<Step>,
    next: usize,
    mode: Mode,
    failure: Option<NipeError>,
}

impl View for PlanRun {
    type V = PlanRunView;

    closed spec fn view(&self) -> PlanRunView {
        PlanRunView {
            steps: steps_view(self.steps@),
            next: self.next as nat,
            mode: self.mode,
            failure: error_view(self.failure),
        }
    }
}

impl PlanRun {
    #[verifier::type_invariant]
    spec fn in_range(self) -> bool {
        self.next <= self.steps.len()
    }

    /// Starts a run of `steps`.
    pub fn new(steps: Vec<Step>, mode: Mode) -> (run: PlanRun)
        ensures
            run@ == PlanRunView::start(steps_view(steps@), mode),
    {
        PlanRun { steps, next: 0, mode, failure: None }
    }

    /// Whether no further effect is handed out.
    pub fn is_finished(&self) -> (b: bool)
        ensures
            b == self@.finished(),
    {
        self.next >= self.steps.len() || (match self.mode {
            Mode::HaltOnFailure => self.failure.is_some(),
            Mode::RunEverything => false,
        })
    }

    /// The effect to carry out now, if the run has not finished.
    pub fn current(&self) -> (e: Option<Effect>)
        ensures
            e is None <==> self@.finished(),
            e is Some ==> e.unwrap()@ == self@.steps[self@.next as int].effect,
    {
        if self.is_finished() {
            None
        } else {
            Some(self.steps[self.next].effect.duplicate())
        }
    }

    /// Takes the host's reply to the current effect.
    pub fn record(&mut self, reply: &Reply)
        ensures
            final(self)@ == old(self)@.record(reply@),
    {
        proof {
            use_type_invariant(&*self);
        }
        if !self.is_finished() {
            if self.failure.is_none() {
                self.failure = self.steps[self.next].failure(reply);
            }
            self.next = self.next + 1;
        }
    }

    /// How the run ended: the first failure that counted, if there was one.
    pub fn verdict(&self) -> (r: Result<(), NipeError>)
        ensures
            r is Ok <==> self@.failure is None,
            r is Err ==> Some(r->Err_0@) == self@.failure,
    {
        match &self.failure {
            Some(e) => Err(e.duplicate()),
            None => Ok(()),
        }
    }
}

/// Whether none of the replies says that an effect could not be carried out.
pub open spec fn all_carried_out(replies: Seq<ReplyView>) -> bool {
    forall|i: int| 0 <= i < replies.len() ==> !(#[trigger] replies[i] is Failed)
}

/// Whether no step of the plan is strict.
pub open spec fn lenient(steps: Seq<StepView>) -> bool {
    forall|i: int| 0 <= i < steps.len() ==> (#[trigger] steps[i]).tolerance != Tolerance::Strict
}

/// A plan without strict steps cannot fail as long as every effect is carried
/// out: a command that ran and reported failure is let pass.
pub proof fn lemma_lenient_plan_succeeds(run: PlanRunView, replies: Seq<ReplyView>)
    requires
        lenient(run.steps),
        all_carried_out(replies),
        run.failure is None,
    ensures
        run.feed(replies).failure is None,
    decreases replies.len(),
{
    if replies.len() > 0 {
        let reply = replies[0];
        assert(!(reply is Failed));
        let after = run.record(reply);
        if !run.finished() {
            assert(run.steps[run.next as int].tolerance != Tolerance::Strict);
        }
        assert(after.failure is None);
        assert forall|i: int| 0 <= i < replies.drop_first().len() implies !(
        #[trigger] replies.drop_first()[i] is Failed) by {
            assert(replies.drop_first()[i] == replies[i + 1]);
        }
        lemma_lenient_plan_succeeds(after, replies.drop_first());
    }
}

/// A run that goes on after failures answers every step: with as many replies
/// as the plan has steps left it has reached the end, whatever went wrong on
/// the way.
pub proof fn lemma_run_everything_reaches_end(run: PlanRunView, replies: Seq<ReplyView>)
    requires
        run.mode == Mode::RunEverything,
        run.next + replies.len() == run.steps.len(),
    ensures
        run.feed(replies).next == run.steps.len(),
        run.feed(replies).finished(),
    decreases replies.len(),
{
    if replies.len() > 0 {
        lemma_run_everything_reaches_end(run.record(replies[0]), replies.drop_first());
    }
}

/// Once a failure has counted it is the one that is reported: later replies
/// do not replace it.
pub proof fn lemma_first_failure_is_kept(run: PlanRunView, replies: Seq<ReplyView>)
    requires
        run.failure is Some,
    ensures
        run.feed(replies).failure == run.failure,
    decreases replies.len(),
{
    if replies.len() > 0 {
        lemma_first_failure_is_kept(run.record(replies[0]), replies.drop_first());
    }
}

} // verus!
