//! The binding table from input types to actions.
use vstd::prelude::*;

use crate::types::{InputDirection, InputMappable, InputType};

verus! {

/// A table from input types to actions, each input type bound at most once.
///
/// The bindings are kept as a list of pairs with distinct keys; the view is
/// the map they spell out.
pub struct InputMap {
    entries: Vec<(InputType, InputMappable)>,
    bindings: Ghost<Map<InputType, InputMappable>>,
}

impl View for InputMap {
    type V = Map<InputType, InputMappable>;

    closed spec fn view(&self) -> Map<InputType, InputMappable> {
        self.bindings@
    }
}

/// The bindings a fresh state starts with: vertical mouse motion drives up and
/// down, horizontal mouse motion drives left and right.
pub open spec fn default_bindings() -> Map<InputType, InputMappable> {
    map![
        InputType::MouseMovement { direction: InputDirection::PositiveVertical } => InputMappable::DirectionUp,
        InputType::MouseMovement { direction: InputDirection::NegativeVertical } => InputMappable::DirectionDown,
        InputType::MouseMovement { direction: InputDirection::NegativeHorizontal } => InputMappable::DirectionLeft,
        InputType::MouseMovement { direction: InputDirection::PositiveHorizontal } => InputMappable::DirectionRight,
    ]
}

/// `entries` holds distinct keys, and binds each key as `bindings` does.
spec fn spells_out(
    entries: Seq<(InputType, InputMappable)>,
    bindings: Map<InputType, InputMappable>,
) -> bool {
    &&& forall|i: int, j: int| 0 <= i < j < entries.len() ==> entries[i].0 != entries[j].0
    &&& forall|i: int|
        0 <= i < entries.len() ==> #[trigger] bindings.contains_key(entries[i].0)
            && bindings[entries[i].0] == entries[i].1
    &&& forall|k: InputType| #[trigger]
        bindings.contains_key(k) ==> exists|i: int| 0 <= i < entries.len() && entries[i].0 == k
}

impl InputMap {
    /// The pairs hold distinct keys and spell out exactly the bindings.
    #[verifier::type_invariant]
    closed spec fn well_formed(&self) -> bool {
        spells_out(self.entries@, self.bindings@)
    }

    /// An empty table.
    pub fn new() -> (r: InputMap)
        ensures
            r@ == Map::<InputType, InputMappable>::empty(),
    {
        InputMap { entries: Vec::new(), bindings: Ghost(Map::empty()) }
    }

    /// The position of the pair that binds `key`, if any.
    fn find(&self, key: &InputType) -> (r: Option<usize>)
        ensures
            match r {
                Some(i) => i < self.entries@.len() && self.entries@[i as int].0 == *key,
                None => !self@.contains_key(*key),
            },
    {
        proof {
            use_type_invariant(self);
        }
        let mut i: usize = 0;
        while i < self.entries.len()
            invariant
                i <= self.entries@.len(),
                forall|j: int| 0 <= j < i ==> self.entries@[j].0 != *key,
            decreases self.entries@.len() - i,
        {
            if self.entries[i].0 == *key {
                return Some(i);
            }
            i = i + 1;
        }
        None
    }

    /// The action bound to `key`, or `None` when the input is unbound.
    pub fn get(&self, key: &InputType) -> (r: Option<InputMappable>)
        ensures
            r == (if self@.contains_key(*key) {
                Some(self@[*key])
            } else {
                None::<InputMappable>
            }),
    {
        proof {
            use_type_invariant(self);
        }
        match self.find(key) {
            Some(i) => Some(self.entries[i].1),
            None => None,
        }
    }

    /// A copy of the pairs.
    fn copy_entries(&self) -> (r: Vec<(InputType, InputMappable)>)
        ensures
            r@ == self.entries@,
    {
        let mut r: Vec<(InputType, InputMappable)> = Vec::new();
        let mut i: usize = 0;
        while i < self.entries.len()
            invariant
                i <= self.entries@.len(),
                r@ == self.entries@.subrange(0, i as int),
            decreases self.entries@.len() - i,
        {
            r.push(self.entries[i]);
            assert(r@ =~= self.entries@.subrange(0, i + 1));
            i = i + 1;
        }
        assert(r@ =~= self.entries@);
        r
    }

    /// Binds `key` to `action`, replacing any earlier binding of `key`.
    pub fn insert(&mut self, key: InputType, action: InputMappable)
        ensures
            final(self)@ == old(self)@.insert(key, action),
    {
        proof {
            use_type_invariant(&*self);
        }
        let found = self.find(&key);
        let mut entries = self.copy_entries();
        let ghost old_entries = entries@;
        let ghost bindings = self.bindings@.insert(key, action);
        match found {
            Some(i) => {
                entries.set(i, (key, action));
                assert forall|a: int, b: int| 0 <= a < b < entries@.len() implies entries@[a].0
                    != entries@[b].0 by {
                    assert(old_entries[a].0 != old_entries[b].0);
                }
            },
            None => {
                entries.push((key, action));
                assert forall|a: int, b: int| 0 <= a < b < entries@.len() implies entries@[a].0
                    != entries@[b].0 by {
                    if b < old_entries.len() {
                        assert(old_entries[a].0 != old_entries[b].0);
                    } else {
                        assert(self.bindings@.contains_key(old_entries[a].0));
                    }
                }
            },
        }
        assert forall|a: int| 0 <= a < entries@.len() implies #[trigger] bindings.contains_key(
            entries@[a].0,
        ) && bindings[entries@[a].0] == entries@[a].1 by {
            if a < old_entries.len() && entries@[a] == old_entries[a] {
                assert(self.bindings@.contains_key(old_entries[a].0));
            }
        }
        assert forall|k: InputType| #[trigger] bindings.contains_key(k) implies exists|i: int|
            0 <= i < entries@.len() && entries@[i].0 == k by {
            if k == key {
                match found {
                    Some(i) => assert(entries@[i as int].0 == k),
                    None => assert(entries@[entries@.len() - 1].0 == k),
                }
            } else {
                assert(self.bindings@.contains_key(k));
                let i = choose|i: int| 0 <= i < old_entries.len() && old_entries[i].0 == k;
                assert(entries@[i].0 == k);
            }
        }
        assert(spells_out(entries@, bindings));
        *self = InputMap { entries, bindings: Ghost(bindings) };
    }

    /// The default bindings of mouse motion to the four directions.
    pub fn default_bindings() -> (r: InputMap)
        ensures
            r@ == default_bindings(),
    {
        let mut m = InputMap::new();
        m.insert(
            InputType::MouseMovement { direction: InputDirection::PositiveVertical },
            InputMappable::DirectionUp,
        );
        m.insert(
            InputType::MouseMovement { direction: InputDirection::NegativeVertical },
            InputMappable::DirectionDown,
        );
        m.insert(
            InputType::MouseMovement { direction: InputDirection::NegativeHorizontal },
            InputMappable::DirectionLeft,
        );
        m.insert(
            InputType::MouseMovement { direction: InputDirection::PositiveHorizontal },
            InputMappable::DirectionRight,
        );
        assert(m@ =~= default_bindings());
        m
    }
}

} // verus!
