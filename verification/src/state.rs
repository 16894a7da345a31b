//! The persistent, frame-surviving state store.
//!
//! The store maps widget identities to values drawn from a closed set of
//! stored kinds (scalar, string buffer, boolean flag, animated value),
//! and also owns the active theme, the widget identity stack, and the
//! per-frame anonymous slot counter.  Entries are created lazily on
//! first encounter and never evicted: an occurrence that disappears from
//! the tree leaves its entry behind.

use vstd::prelude::*;
use std::collections::HashMap;
use crate::animation::AnimatedValue;
use crate::config::Theme;
use crate::identity::{fold_step, WidgetIdStack};

verus! {

broadcast use vstd::std_specs::hash::group_hash_axioms;

/// One stored widget state: the closed set of kinds a widget may keep
/// across frames.
#[derive(Clone, Debug)]
pub enum StateValue {
    Num(i64),
    Text(String),
    Flag(bool),
    Anim(AnimatedValue),
}

/// The mathematical shape of a stored value: as [`StateValue`], with
/// string buffers read as character sequences.
pub enum StateValueModel {
    Num(i64),
    Text(Seq<char>),
    Flag(bool),
    Anim(AnimatedValue),
}

impl View for StateValue {
    type V = StateValueModel;

    open spec fn view(&self) -> StateValueModel {
        match self {
            StateValue::Num(n) => StateValueModel::Num(*n),
            StateValue::Text(s) => StateValueModel::Text(s@),
            StateValue::Flag(b) => StateValueModel::Flag(*b),
            StateValue::Anim(a) => StateValueModel::Anim(*a),
        }
    }
}

impl StateValue {
    /// An equal-valued copy: same kind, same contents.
    pub fn duplicate(&self) -> (r: StateValue)
        ensures
            r@ == self@,
    {
        match self {
            StateValue::Num(n) => StateValue::Num(*n),
            StateValue::Text(s) => StateValue::Text(s.clone()),
            StateValue::Flag(b) => StateValue::Flag(*b),
            StateValue::Anim(a) => StateValue::Anim(*a),
        }
    }
}

/// The store: typed state per identity, the active theme, the widget
/// identity stack, and the per-frame anonymous slot counter.
#[derive(Debug)]
pub struct StateStore {
    pub states: HashMap<u64, StateValue>,
    pub widget_stack: WidgetIdStack,
    pub theme: Theme,
    pub current_index: u64,
}

/// The stored entries of `store`, by identity, in mathematical shape.
pub open spec fn entries_of(store: StateStore) -> Map<u64, StateValueModel> {
    store.states@.map_values(|v: StateValue| v@)
}

impl StateStore {
    /// An empty store with the dark theme, an empty identity stack, and
    /// the anonymous counter at zero.
    pub fn new() -> (s: StateStore)
        ensures
            s.states@ == Map::<u64, StateValue>::empty(),
            s.widget_stack.stack@ == Seq::<u64>::empty(),
            s.widget_stack.current == 0,
            s.widget_stack.wf(),
            s.theme.colors == crate::config::dark_colors(),
            s.current_index == 0,
    {
        StateStore {
            states: HashMap::new(),
            widget_stack: WidgetIdStack::new(),
            theme: Theme::dark(),
            current_index: 0,
        }
    }

    /// The identity a leaf at ordinal `local_id` gets under the current
    /// path.
    pub fn get_widget_id(&mut self, local_id: u64) -> (r: u64)
        ensures
            r == fold_step(old(self).widget_stack.current, local_id),
            *final(self) == *old(self),
    {
        self.widget_stack.make_id(local_id)
    }

    /// Enters a widget identity scope.
    pub fn push_widget(&mut self, id: u64)
        ensures
            final(self).widget_stack.stack@ == old(self).widget_stack.stack@.push(id),
            final(self).widget_stack.current == fold_step(old(self).widget_stack.current, id),
            old(self).widget_stack.wf() ==> final(self).widget_stack.wf(),
            final(self).states@ == old(self).states@,
            final(self).theme == old(self).theme,
            final(self).current_index == old(self).current_index,
    {
        self.widget_stack.push(id);
    }

    /// Leaves the most recent widget identity scope.
    pub fn pop_widget(&mut self)
        ensures
            final(self).widget_stack.stack@ == (if old(self).widget_stack.stack@.len() > 0 {
                old(self).widget_stack.stack@.drop_last()
            } else {
                old(self).widget_stack.stack@
            }),
            final(self).widget_stack.wf(),
            final(self).states@ == old(self).states@,
            final(self).theme == old(self).theme,
            final(self).current_index == old(self).current_index,
    {
        self.widget_stack.pop();
    }

    /// Starts a frame: clears the identity stack and the anonymous slot
    /// counter.  Stored entries survive.
    pub fn reset_frame(&mut self)
        ensures
            final(self).widget_stack.stack@ == Seq::<u64>::empty(),
            final(self).widget_stack.current == 0,
            final(self).widget_stack.wf(),
            final(self).current_index == 0,
            final(self).states@ == old(self).states@,
            final(self).theme == old(self).theme,
    {
        self.widget_stack.reset();
        self.current_index = 0;
    }
}

/// A typed, copyable accessor bound to one identity; the store owns the
/// value, the handle only reaches it.
#[derive(Clone, Copy, Debug)]
pub struct StateHandle {
    pub id: u64,
}

impl StateHandle {
    /// The stored value under this handle's identity.  The entry must
    /// exist: reading a missing identity is a structural bug in the
    /// caller's call-order stability, not a recoverable condition.
    pub fn get(&self, store: &StateStore) -> (r: StateValue)
        requires
            store.states@.contains_key(self.id),
        ensures
            r@ == store.states@[self.id]@,
    {
        match store.states.get(&self.id) {
            Some(v) => v.duplicate(),
            None => {
                proof {
                    assert(false);
                }
                StateValue::Flag(false)
            },
        }
    }

    /// Stores `val` under this handle's identity, visible immediately to
    /// subsequent reads in the same frame.
    pub fn set(&self, store: &mut StateStore, val: StateValue)
        ensures
            final(store).states@ == old(store).states@.insert(self.id, val),
            final(store).widget_stack == old(store).widget_stack,
            final(store).theme == old(store).theme,
            final(store).current_index == old(store).current_index,
    {
        store.states.insert(self.id, val);
    }

    /// Reads the stored value, passes it through `f`, and stores the
    /// result.
    pub fn update<F: FnOnce(StateValue) -> StateValue>(&self, store: &mut StateStore, f: F)
        requires
            old(store).states@.contains_key(self.id),
            forall|v: StateValue| v@ == old(store).states@[self.id]@ ==> call_requires(f, (v,)),
        ensures
            exists|v: StateValue, out: StateValue|
                {
                    &&& v@ == old(store).states@[self.id]@
                    &&& #[trigger] call_ensures(f, (v,), out)
                    &&& final(store).states@ == old(store).states@.insert(self.id, out)
                },
            final(store).widget_stack == old(store).widget_stack,
            final(store).theme == old(store).theme,
            final(store).current_index == old(store).current_index,
    {
        let current = self.get(store);
        let out = f(current);
        self.set(store, out);
    }
}

} // verus!
