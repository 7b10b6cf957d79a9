//! The active set of expansion rules.
//!
//! Rules are replaced wholesale by the control surface and read by the
//! matcher through a point-in-time snapshot, so matching never iterates a
//! set that is being replaced underneath it.

use vstd::prelude::*;

verus! {

/// One expansion rule: typing `trigger` followed by a delimiter replaces
/// both with `replacement`.  Uniqueness of triggers is not enforced; the
/// first rule in store order wins.
#[derive(Debug)]
pub struct Rule {
    pub trigger: String,
    pub replacement: String,
}

/// A deep copy, field for field.
pub fn clone_rule(r: &Rule) -> (c: Rule)
    ensures
        c.trigger@ == r.trigger@,
        c.replacement@ == r.replacement@,
{
    Rule { trigger: r.trigger.clone(), replacement: r.replacement.clone() }
}

/// The rule set the matcher consults, replaced wholesale.
pub struct RuleStore {
    pub rules: Vec<Rule>,
}

impl RuleStore {
    pub fn new() -> (s: Self)
        ensures
            s.rules@.len() == 0,
    {
        RuleStore { rules: Vec::new() }
    }

    /// Overwrites the whole active set.  An empty list is valid and simply
    /// yields no matches.
    pub fn replace_all(&mut self, rules: Vec<Rule>)
        ensures
            final(self).rules@ == rules@,
    {
        self.rules = rules;
    }

    pub fn len(&self) -> (n: usize)
        ensures
            n == self.rules@.len(),
    {
        self.rules.len()
    }

    /// A consistent point-in-time copy for the matcher to scan, so that
    /// matching never keeps the store borrowed.
    pub fn snapshot(&self) -> (snap: Vec<Rule>)
        ensures
            snap@.len() == self.rules@.len(),
            forall|i: int|
                0 <= i < snap@.len() ==> #[trigger] snap@[i].trigger@ == self.rules@[i].trigger@
                    && snap@[i].replacement@ == self.rules@[i].replacement@,
    {
        let mut snap: Vec<Rule> = Vec::new();
        let mut i: usize = 0;
        while i < self.rules.len()
            invariant
                i <= self.rules@.len(),
                snap@.len() == i,
                forall|j: int|
                    0 <= j < i ==> #[trigger] snap@[j].trigger@ == self.rules@[j].trigger@
                        && snap@[j].replacement@ == self.rules@[j].replacement@,
            decreases self.rules@.len() - i,
        {
            snap.push(clone_rule(&self.rules[i]));
            i = i + 1;
        }
        snap
    }
}

} // verus!
