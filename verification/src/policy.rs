//! The allow-list policy: a request for a secret is allowed exactly when its
//! name is in the session's set.
use vstd::prelude::*;
use crate::name::SecretName;

verus! {

/// Why a request was refused.
#[derive(Debug, Clone, Copy, PartialEq, Eq, Structural)]
pub enum DenyReason {
    NotAllowed,
}

/// The policy's answer to one request.
#[derive(Debug, Clone, Copy, PartialEq, Eq, Structural)]
pub enum Decision {
    Allow,
    Deny(DenyReason),
}

/// A set of secret names, viewed as the set of their texts.
pub struct SecretNameSet {
    names: Vec<SecretName>,
}

impl View for SecretNameSet {
    type V = Set<Seq<char>>;

    closed spec fn view(&self) -> Set<Seq<char>> {
        Set::new(|text: Seq<char>| exists|i: int| 0 <= i < self.names@.len() && #[trigger] self.names@[i]@ == text)
    }
}

impl SecretNameSet {
    /// The empty set.
    pub fn new() -> (set: Self)
        ensures
            set@ == Set::<Seq<char>>::empty(),
    {
        let set = SecretNameSet { names: Vec::new() };
        assert(set@ =~= Set::<Seq<char>>::empty());
        set
    }

    /// Whether `name` is in the set.
    pub fn contains(&self, name: &SecretName) -> (found: bool)
        ensures
            found == self@.contains(name@),
    {
        let mut i: usize = 0;
        while i < self.names.len()
            invariant
                0 <= i <= self.names@.len(),
                forall|j: int| 0 <= j < i ==> #[trigger] self.names@[j]@ != name@,
            decreases self.names@.len() - i,
        {
            if self.names[i] == *name {
                assert(self.names@[i as int]@ == name@);
                return true;
            }
            i = i + 1;
        }
        false
    }

    /// Adds `name`; tells whether it was absent before.
    pub fn insert(&mut self, name: SecretName) -> (added: bool)
        ensures
            final(self)@ == old(self)@.insert(name@),
            added == !old(self)@.contains(name@),
    {
        if self.contains(&name) {
            assert(self@ =~= old(self)@.insert(name@));
            false
        } else {
            let ghost before = self@;
            let ghost text = name@;
            self.names.push(name);
            assert forall|t: Seq<char>| #[trigger] self@.contains(t) <==> before.insert(text).contains(t) by {
                if self@.contains(t) {
                    let i = choose|i: int| 0 <= i < self.names@.len() && #[trigger] self.names@[i]@ == t;
                    if i < self.names@.len() - 1 {
                        assert(old(self).names@[i]@ == t);
                    }
                }
                if before.contains(t) {
                    let i = choose|i: int| 0 <= i < old(self).names@.len() && #[trigger] old(self).names@[i]@ == t;
                    assert(self.names@[i]@ == t);
                }
                if t == text {
                    assert(self.names@[self.names@.len() - 1]@ == t);
                }
            }
            assert(self@ =~= before.insert(text));
            true
        }
    }

    /// The set holding exactly the given names.
    pub fn from_names(names: Vec<SecretName>) -> (set: Self)
        ensures
            forall|t: Seq<char>| #[trigger] set@.contains(t) <==> exists|i: int| 0 <= i < names@.len() && #[trigger] names@[i]@ == t,
    {
        let set = SecretNameSet { names };
        set
    }
}

/// The policy: allow exactly the listed names.
pub open spec fn decision_for(allowed: Set<Seq<char>>, name: Seq<char>) -> Decision {
    if allowed.contains(name) {
        Decision::Allow
    } else {
        Decision::Deny(DenyReason::NotAllowed)
    }
}

/// Decides one request for `name` against the allowed set.
pub fn decide(name: &SecretName, allowed: &SecretNameSet) -> (decision: Decision)
    ensures
        decision == decision_for(allowed@, name@),
{
    if allowed.contains(name) {
        Decision::Allow
    } else {
        Decision::Deny(DenyReason::NotAllowed)
    }
}

/// Allowing a name allows it, and changes the decision on no other name.
pub proof fn allowing_a_name_changes_only_its_decision(allowed: Set<Seq<char>>, added: Seq<char>, other: Seq<char>)
    ensures
        decision_for(allowed.insert(added), added) == Decision::Allow,
        other != added ==> decision_for(allowed.insert(added), other) == decision_for(allowed, other),
{
}

/// Every refusal has the same reason: the name is not on the list.
pub proof fn refusals_are_for_unlisted_names(allowed: Set<Seq<char>>, name: Seq<char>)
    ensures
        decision_for(allowed, name) != Decision::Allow <==> !allowed.contains(name),
        decision_for(allowed, name) is Deny ==> decision_for(allowed, name) == Decision::Deny(DenyReason::NotAllowed),
{
}

} // verus!
