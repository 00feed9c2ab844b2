//! A small helper that records a value when a word matches one of several
//! expected words.

use vstd::prelude::*;

verus! {

/// Holds the word being tested and the value of the last rule that matched it.
pub struct RuleSet<T, V: PartialEq> {
    pub value: Option<T>,
    pub to_compare: V,
}

/// A rule set over `to_compare` where no rule has matched yet.
pub fn make_rule_set<T, V: PartialEq>(to_compare: V) -> (r: RuleSet<T, V>)
    ensures
        r.value is None,
        r.to_compare == to_compare,
{
    RuleSet { value: None, to_compare }
}

impl<T> RuleSet<T, String> {
    /// Records `if_true` when the word under test is `equals`.
    pub fn exec_rule(&mut self, if_true: T, equals: String)
        ensures
            final(self).to_compare == old(self).to_compare,
            final(self).value == if old(self).to_compare@ == equals@ {
                Some(if_true)
            } else {
                old(self).value
            },
    {
        if self.to_compare == equals {
            self.value = Some(if_true);
        }
    }
}

} // verus!
