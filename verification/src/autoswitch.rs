//! The decisions of the autoswitch engine.
//!
//! The engine polls which window is in the foreground and, when it changes,
//! matches the owning process against an ordered rule list; the first matching
//! rule decides whether a profile switch is issued. The polling, the process
//! lookup and the device transaction are outside work an unverified loop
//! performs; every decision between them is made here.

use vstd::prelude::*;

verus! {

/// What the engine reads of the process that owns the foreground window:
/// its name, its executable path and its full argument vector.
#[derive(Debug, Clone)]
pub struct ProcessInfo {
    pub name: String,
    pub exe: String,
    pub cmd: Vec<String>,
}

/// One declared rule: which profile to switch to, and which processes it is
/// for. An absent matcher constrains nothing; every present matcher must
/// agree with the process. A rule without a profile still stops the scan.
#[derive(Debug, Clone)]
pub struct Rule {
    pub profile: Option<u8>,
    pub name: Option<String>,
    pub exe: Option<String>,
    pub cmd: Option<Vec<String>>,
}

/// True when every matcher the rule declares agrees with the process;
/// absent matchers are vacuously true.
pub open spec fn rule_matches_spec(rule: Rule, p: ProcessInfo) -> bool {
    &&& (rule.name matches Some(n) ==> n@ == p.name@)
    &&& (rule.exe matches Some(e) ==> e@ == p.exe@)
    &&& (rule.cmd matches Some(c) ==> c.deep_view() == p.cmd.deep_view())
}

/// True when the two vectors hold the same strings in the same order.
fn string_vecs_equal(a: &Vec<String>, b: &Vec<String>) -> (r: bool)
    ensures
        r == (a.deep_view() == b.deep_view()),
{
    if a.len() != b.len() {
        proof {
            assert(a.deep_view().len() == a@.len());
            assert(b.deep_view().len() == b@.len());
        }
        return false;
    }
    let mut i: usize = 0;
    while i < a.len()
        invariant
            i <= a@.len(),
            a@.len() == b@.len(),
            forall|j: int| 0 <= j < i ==> a@[j]@ == b@[j]@,
        decreases a@.len() - i,
    {
        if a[i] != b[i] {
            proof {
                assert(a.deep_view()[i as int] == a@[i as int]@);
                assert(b.deep_view()[i as int] == b@[i as int]@);
            }
            return false;
        }
        i += 1;
    }
    proof {
        assert(a.deep_view() =~~= b.deep_view());
    }
    true
}

/// Decides whether a rule is for the given process.
pub fn rule_matches(rule: &Rule, p: &ProcessInfo) -> (r: bool)
    ensures
        r == rule_matches_spec(*rule, *p),
{
    let name_ok = match &rule.name {
        Some(n) => *n == p.name,
        None => true,
    };
    let exe_ok = match &rule.exe {
        Some(e) => *e == p.exe,
        None => true,
    };
    let cmd_ok = match &rule.cmd {
        Some(c) => string_vecs_equal(c, &p.cmd),
        None => true,
    };
    name_ok && exe_ok && cmd_ok
}

/// What an ordered rule list says of a process: `None` when no rule is for
/// it, otherwise the profile field of the first rule that is, later rules
/// never looked at.
pub open spec fn matched_profile_spec(rules: Seq<Rule>, p: ProcessInfo) -> Option<Option<u8>>
    decreases rules.len(),
{
    if rules.len() == 0 {
        None
    } else if rule_matches_spec(rules[0], p) {
        Some(rules[0].profile)
    } else {
        matched_profile_spec(rules.skip(1), p)
    }
}

/// Law: the scan stops at the first matching rule. Whatever later rules
/// would say of the process, the first match alone decides the outcome.
pub proof fn lemma_first_match_wins(rules: Seq<Rule>, p: ProcessInfo, i: int)
    requires
        0 <= i < rules.len(),
        rule_matches_spec(rules[i], p),
        forall|j: int| 0 <= j < i ==> !rule_matches_spec(rules[j], p),
    ensures
        matched_profile_spec(rules, p) == Some(rules[i].profile),
    decreases i,
{
    if i > 0 {
        lemma_first_match_wins(rules.skip(1), p, i - 1);
    }
}

/// Scans the rules in declared order and returns the first matching rule's
/// profile field; `None` when no rule matches.
pub fn evaluate_rules(rules: &Vec<Rule>, p: &ProcessInfo) -> (r: Option<Option<u8>>)
    ensures
        r == matched_profile_spec(rules@, *p),
{
    let mut i: usize = 0;
    proof {
        assert(rules@.skip(0) =~= rules@);
    }
    while i < rules.len()
        invariant
            i <= rules@.len(),
            matched_profile_spec(rules@, *p) == matched_profile_spec(rules@.skip(i as int), *p),
        decreases rules@.len() - i,
    {
        if rule_matches(&rules[i], p) {
            proof {
                assert(rules@.skip(i as int)[0] == rules@[i as int]);
            }
            return Some(rules[i].profile);
        }
        proof {
            assert(rules@.skip(i as int).skip(1) =~= rules@.skip(i as int + 1));
        }
        i += 1;
    }
    None
}

/// One device operation of a profile switch, in the order the device needs.
#[derive(Debug, Clone, Copy, PartialEq, Eq, Structural)]
pub enum ProfileCommand {
    /// Make the profile with this index current.
    Activate(u8),
    /// Re-apply the current profile's settings; mandatory after activation.
    Reload,
}

/// Decides what to send once the wanted and the current profile index are
/// known: nothing when they already agree, else exactly one activation of the
/// wanted profile followed by exactly one reload, in that order.
pub fn decide_switch(wanted: u8, current: u8) -> (r: Vec<ProfileCommand>)
    ensures
        current == wanted ==> r@ == Seq::<ProfileCommand>::empty(),
        current != wanted ==> r@ == seq![
            ProfileCommand::Activate(wanted),
            ProfileCommand::Reload,
        ],
{
    let mut plan: Vec<ProfileCommand> = Vec::new();
    if current != wanted {
        plan.push(ProfileCommand::Activate(wanted));
        plan.push(ProfileCommand::Reload);
        proof {
            assert(plan@ =~= seq![ProfileCommand::Activate(wanted), ProfileCommand::Reload]);
        }
    } else {
        proof {
            assert(plan@ =~= Seq::<ProfileCommand>::empty());
        }
    }
    plan
}

/// The engine's persistent state between poll cycles: the identifier of the
/// window that was in the foreground last cycle.
#[derive(Debug, Clone)]
pub struct AutoswitchState {
    pub previous_window_id: String,
}

impl AutoswitchState {
    /// The state before the first cycle: no window observed yet.
    pub fn new() -> (r: AutoswitchState)
        ensures
            r.previous_window_id@ == Seq::<char>::empty(),
    {
        AutoswitchState { previous_window_id: String::new() }
    }

    /// The debounce step of one poll cycle. An unchanged window identifier
    /// means no transition: nothing is returned and nothing further — no
    /// process query, no rule evaluation — is to happen this cycle. A changed
    /// identifier is recorded and the process identifier is handed back for
    /// resolution.
    pub fn observe_window(&mut self, window_id: &String, process_id: u64) -> (r: Option<u64>)
        ensures
            window_id@ == old(self).previous_window_id@ ==> r is None
                && final(self).previous_window_id@ == old(self).previous_window_id@,
            window_id@ != old(self).previous_window_id@ ==> r == Some(process_id)
                && final(self).previous_window_id@ == window_id@,
    {
        if *window_id == self.previous_window_id {
            None
        } else {
            self.previous_window_id = window_id.clone();
            Some(process_id)
        }
    }
}

} // verus!
