//! A model of the host's packet filter, as far as the kill switch writes to it.
//!
//! The model holds, for each [`Scope`], the commands whose rules are in force
//! there, in the order in which they were installed. It says what a plan does
//! to the host when each of its commands succeeds, so that what is claimed of
//! the kill switch can be stated and proved.

use vstd::prelude::*;
use vstd::string::*;
use crate::host::{CommandView, EffectView, Meaning, Scope};
use crate::plan::StepView;

verus! {

/// The rules in force, by scope. A scope that is absent holds no rule.
pub type HostRules = Map<Scope, Seq<CommandView>>;

/// The rules in force in `scope`.
pub open spec fn rules_in(host: HostRules, scope: Scope) -> Seq<CommandView> {
    if host.dom().contains(scope) {
        host[scope]
    } else {
        Seq::empty()
    }
}

/// Whether two hosts have the same rules in force everywhere.
pub open spec fn same_rules(a: HostRules, b: HostRules) -> bool {
    forall|scope: Scope| rules_in(a, scope) == rules_in(b, scope)
}

/// Whether an effect installs a rule.
pub open spec fn installs(effect: EffectView) -> bool {
    match effect {
        EffectView::Run { command, meaning } => meaning is Append || meaning is Replace,
        _ => false,
    }
}

/// The host after an effect that succeeded.
pub open spec fn after_effect(host: HostRules, effect: EffectView) -> HostRules {
    match effect {
        EffectView::Run { command, meaning } => match meaning {
            Meaning::Neutral => host,
            Meaning::Clear(scope) => host.remove(scope),
            Meaning::Append(scope) => host.insert(scope, rules_in(host, scope).push(command)),
            Meaning::Replace(scope) => host.insert(scope, seq![command]),
        },
        _ => host,
    }
}

/// The host after every step of a plan succeeded, first to last.
pub open spec fn after_plan(host: HostRules, steps: Seq<StepView>) -> HostRules
    decreases steps.len(),
{
    if steps.len() == 0 {
        host
    } else {
        after_effect(after_plan(host, steps.drop_last()), steps.last().effect)
    }
}

/// Whether a plan installs no rule.
pub open spec fn installs_nothing(steps: Seq<StepView>) -> bool {
    forall|i: int| 0 <= i < steps.len() ==> !installs((#[trigger] steps[i]).effect)
}

/// The scope that an effect writes to, if it writes to one.
pub open spec fn scope_of(effect: EffectView) -> Option<Scope> {
    match effect {
        EffectView::Run { command, meaning } => match meaning {
            Meaning::Neutral => None,
            Meaning::Clear(scope) => Some(scope),
            Meaning::Append(scope) => Some(scope),
            Meaning::Replace(scope) => Some(scope),
        },
        _ => None,
    }
}

/// Whether a plan clears, appends to or replaces the scope.
pub open spec fn touches(steps: Seq<StepView>, scope: Scope) -> bool {
    exists|i: int| 0 <= i < steps.len() && scope_of((#[trigger] steps[i]).effect) == Some(scope)
}

/// Whether no step of a plan spawns a process.
pub open spec fn spawns_nothing(steps: Seq<StepView>) -> bool {
    forall|i: int| 0 <= i < steps.len() ==> !((#[trigger] steps[i]).effect is Spawn)
}

/// A plan leaves every scope that it does not touch as it found it.
pub proof fn lemma_untouched_scope_is_kept(host: HostRules, steps: Seq<StepView>, scope: Scope)
    requires
        !touches(steps, scope),
    ensures
        rules_in(after_plan(host, steps), scope) == rules_in(host, scope),
    decreases steps.len(),
{
    if steps.len() > 0 {
        let front = steps.drop_last();
        assert(!touches(front, scope)) by {
            if touches(front, scope) {
                let i = choose|i: int|
                    0 <= i < front.len() && scope_of((#[trigger] front[i]).effect) == Some(scope);
                assert(front[i] == steps[i]);
            }
        }
        lemma_untouched_scope_is_kept(host, front, scope);
        let last = steps[steps.len() - 1];
        assert(steps.last() == last);
    }
}

/// The scope that an effect removes every rule of, if it does so.
pub open spec fn cleared_by(effect: EffectView) -> Option<Scope> {
    match effect {
        EffectView::Run { command, meaning } => match meaning {
            Meaning::Clear(scope) => Some(scope),
            _ => None,
        },
        _ => None,
    }
}

/// Whether some step of the plan removes every rule of the scope.
pub open spec fn clears(steps: Seq<StepView>, scope: Scope) -> bool {
    exists|i: int| 0 <= i < steps.len() && cleared_by((#[trigger] steps[i]).effect) == Some(scope)
}

/// A plan that installs nothing and clears a scope leaves that scope without
/// rules.
pub proof fn lemma_cleared_scope_is_empty(host: HostRules, steps: Seq<StepView>, scope: Scope)
    requires
        installs_nothing(steps),
        clears(steps, scope),
    ensures
        rules_in(after_plan(host, steps), scope) == Seq::<CommandView>::empty(),
    decreases steps.len(),
{
    let i = choose|i: int|
        0 <= i < steps.len() && cleared_by((#[trigger] steps[i]).effect) == Some(scope);
    let front = steps.drop_last();
    let last = steps[steps.len() - 1];
    assert(steps.last() == last);
    assert(!installs(last.effect));
    assert forall|k: int| 0 <= k < front.len() implies !installs((#[trigger] front[k]).effect) by {
        assert(front[k] == steps[k]);
    }
    if i == steps.len() - 1 {
    } else {
        assert(front[i] == steps[i]);
        lemma_cleared_scope_is_empty(host, front, scope);
    }
}

/// Whether every step of the plan that writes to a scope writes to one of
/// `scopes`.
pub open spec fn writes_within(steps: Seq<StepView>, scopes: Set<Scope>) -> bool {
    forall|i: int|
        0 <= i < steps.len() && scope_of((#[trigger] steps[i]).effect) is Some ==> scopes.contains(
            scope_of(steps[i].effect).unwrap(),
        )
}

/// A scope that a plan touches is one of those that it writes within.
pub proof fn lemma_touched_is_within(steps: Seq<StepView>, scopes: Set<Scope>, scope: Scope)
    requires
        writes_within(steps, scopes),
        touches(steps, scope),
    ensures
        scopes.contains(scope),
{
    let i = choose|i: int| 0 <= i < steps.len() && scope_of((#[trigger] steps[i]).effect) == Some(scope);
    assert(scope_of(steps[i].effect) is Some);
}

/// Switching on and then off restores the host. Let both plans write within
/// `scopes`, the first to each of them; let the second install nothing and
/// clear each of them. If the scopes that the first plan writes to held no
/// rule, the rules in force after both are those in force before.
pub proof fn lemma_on_then_off_restores(
    host: HostRules,
    on: Seq<StepView>,
    off: Seq<StepView>,
    scopes: Set<Scope>,
)
    requires
        installs_nothing(off),
        writes_within(on, scopes),
        writes_within(off, scopes),
        forall|scope: Scope| scopes.contains(scope) ==> touches(on, scope) && clears(off, scope),
        forall|scope: Scope| touches(on, scope) ==> rules_in(host, scope) == Seq::<CommandView>::empty(),
    ensures
        same_rules(after_plan(after_plan(host, on), off), host),
{
    let mid = after_plan(host, on);
    assert forall|scope: Scope| rules_in(after_plan(mid, off), scope) == rules_in(host, scope) by {
        if touches(on, scope) {
            lemma_touched_is_within(on, scopes, scope);
            lemma_cleared_scope_is_empty(mid, off, scope);
        } else {
            if touches(off, scope) {
                lemma_touched_is_within(off, scopes, scope);
            }
            lemma_untouched_scope_is_kept(host, on, scope);
            lemma_untouched_scope_is_kept(mid, off, scope);
        }
    }
}

/// The host after a sequence of effects of which those that `done` marks
/// were carried out with success and the others left the host as it was.
pub open spec fn after_effects(host: HostRules, effects: Seq<EffectView>, done: Seq<bool>) -> HostRules
    decreases effects.len(),
{
    if effects.len() == 0 {
        host
    } else {
        let before = after_effects(host, effects.drop_last(), done);
        if effects.len() <= done.len() && done[effects.len() - 1] {
            after_effect(before, effects.last())
        } else {
            before
        }
    }
}

/// Whether no rule of the kill switch is in force on the host.
pub open spec fn kill_switch_off(host: HostRules) -> bool {
    forall|scope: Scope| rules_in(host, scope) == Seq::<CommandView>::empty()
}

/// Effects that install nothing leave the kill switch off where it was off,
/// whichever of them were carried out: the rules in force after are those in
/// force before.
pub proof fn lemma_no_install_keeps_kill_switch_off(
    host: HostRules,
    effects: Seq<EffectView>,
    done: Seq<bool>,
)
    requires
        kill_switch_off(host),
        forall|i: int| 0 <= i < effects.len() ==> !installs(#[trigger] effects[i]),
    ensures
        kill_switch_off(after_effects(host, effects, done)),
        same_rules(after_effects(host, effects, done), host),
    decreases effects.len(),
{
    if effects.len() > 0 {
        let front = effects.drop_last();
        assert forall|i: int| 0 <= i < front.len() implies !installs(#[trigger] front[i]) by {
            assert(front[i] == effects[i]);
        }
        lemma_no_install_keeps_kill_switch_off(host, front, done);
        let before = after_effects(host, front, done);
        let last = effects[effects.len() - 1];
        assert(effects.last() == last);
        assert(!installs(last));
        let after = after_effects(host, effects, done);
        assert forall|scope: Scope| rules_in(after, scope) == Seq::<CommandView>::empty() by {
            assert(rules_in(before, scope) == Seq::<CommandView>::empty());
        }
    }
}

/// Whether an effect sets the rules of the scope afresh: it clears the scope
/// or replaces its rules.
pub open spec fn resets(effect: EffectView, scope: Scope) -> bool {
    match effect {
        EffectView::Run { command, meaning } => meaning == Meaning::Clear(scope) || meaning
            == Meaning::Replace(scope),
        _ => false,
    }
}

/// Whether the plan sets the rules of the scope afresh before it does
/// anything else to them.
pub open spec fn resets_first(steps: Seq<StepView>, scope: Scope) -> bool {
    exists|i: int|
        0 <= i < steps.len() && resets((#[trigger] steps[i]).effect, scope) && forall|j: int|
            0 <= j < i ==> scope_of((#[trigger] steps[j]).effect) != Some(scope)
}

/// What a plan that sets a scope afresh leaves in it does not depend on what
/// was there.
pub proof fn lemma_reset_forgets(
    first: HostRules,
    second: HostRules,
    steps: Seq<StepView>,
    scope: Scope,
)
    requires
        resets_first(steps, scope),
    ensures
        rules_in(after_plan(first, steps), scope) == rules_in(after_plan(second, steps), scope),
    decreases steps.len(),
{
    let i = choose|i: int|
        0 <= i < steps.len() && resets((#[trigger] steps[i]).effect, scope) && forall|j: int|
            0 <= j < i ==> scope_of((#[trigger] steps[j]).effect) != Some(scope);
    let front = steps.drop_last();
    let last = steps[steps.len() - 1];
    assert(steps.last() == last);
    if i < steps.len() - 1 {
        assert(front[i] == steps[i]);
        assert forall|j: int| 0 <= j < i implies scope_of((#[trigger] front[j]).effect) != Some(
            scope,
        ) by {
            assert(front[j] == steps[j]);
        }
        lemma_reset_forgets(first, second, front, scope);
    }
}

/// Running a plan twice is running it once, if it writes within `scopes` and
/// sets each of them afresh before it does anything else to it.
pub proof fn lemma_twice_is_once(host: HostRules, steps: Seq<StepView>, scopes: Set<Scope>)
    requires
        writes_within(steps, scopes),
        forall|scope: Scope| scopes.contains(scope) ==> resets_first(steps, scope),
    ensures
        same_rules(after_plan(after_plan(host, steps), steps), after_plan(host, steps)),
{
    let once = after_plan(host, steps);
    assert forall|scope: Scope| rules_in(after_plan(once, steps), scope) == rules_in(
        once,
        scope,
    ) by {
        if touches(steps, scope) {
            lemma_touched_is_within(steps, scopes, scope);
            lemma_reset_forgets(once, host, steps, scope);
        } else {
            lemma_untouched_scope_is_kept(once, steps, scope);
        }
    }
}

/// Whether a command line is one that puts rules in force: an append to a
/// chain, a load of a rules file, an added rule of the rule engine.
pub open spec fn writes_rules(command: CommandView) -> bool {
    ||| command.program == "iptables"@ && command.args.len() > 2 && command.args[2] == "-A"@
    ||| command.program == "pfctl"@ && command.args.len() > 0 && command.args[0] == "-f"@
    ||| command.program == "netsh"@ && command.args.len() > 2 && command.args[2] == "add"@
}

/// Whether the command of an effect, if it has one, is tagged as installing
/// rules exactly if its command line is one that puts rules in force.
pub open spec fn tagged_truly(effect: EffectView) -> bool {
    match effect {
        EffectView::Run { command, meaning } => installs(effect) == writes_rules(command),
        _ => true,
    }
}

/// Whether every command of the plan is tagged truly.
pub open spec fn all_tagged_truly(steps: Seq<StepView>) -> bool {
    forall|i: int| 0 <= i < steps.len() ==> tagged_truly((#[trigger] steps[i]).effect)
}

/// The texts by which commands are told apart differ from each other.
pub proof fn lemma_command_words_differ()
    ensures
        "iptables"@ != "pfctl"@,
        "iptables"@ != "netsh"@,
        "iptables"@ != "networksetup"@,
        "pfctl"@ != "netsh"@,
        "pfctl"@ != "networksetup"@,
        "netsh"@ != "networksetup"@,
        "-A"@ != "-F"@,
        "-A"@ != "-X"@,
        "-f"@ != "-e"@,
        "-f"@ != "-d"@,
        "add"@ != "delete"@,
        "add"@ != "proxy"@,
        "-A"@.len() == 2,
        "-f"@.len() == 2,
        "add"@.len() == 3,
{
    reveal_strlit("iptables");
    reveal_strlit("pfctl");
    reveal_strlit("netsh");
    reveal_strlit("networksetup");
    reveal_strlit("-A");
    reveal_strlit("-F");
    reveal_strlit("-X");
    reveal_strlit("-f");
    reveal_strlit("-e");
    reveal_strlit("-d");
    reveal_strlit("add");
    reveal_strlit("delete");
    reveal_strlit("proxy");
    assert("-A"@[1] != "-F"@[1]);
    assert("-A"@[1] != "-X"@[1]);
    assert("-f"@[1] != "-e"@[1]);
    assert("-f"@[1] != "-d"@[1]);
    assert("iptables"@[0] != "pfctl"@[0]);
    assert("iptables"@[0] != "netsh"@[0]);
    assert("pfctl"@[0] != "netsh"@[0]);
    assert("netsh"@.len() != "networksetup"@.len());
    assert("add"@.len() != "delete"@.len());
    assert("add"@.len() != "proxy"@.len());
    assert("iptables"@.len() != "networksetup"@.len());
    assert("pfctl"@.len() != "networksetup"@.len());
}

} // verus!
