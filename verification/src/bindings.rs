//! Declarative binding sets: which physical sources drive a control.
//!
//! A control's binding set is an ordered list of at most 32 physical
//! slots: the bound keyboard keys first, then the bound gamepad buttons.
//! A source's slot index is its position in that list. Exceeding 32
//! bindings, or binding one source twice, is rejected at configuration
//! time, so slot indices never collide.

use vstd::prelude::*;

use crate::codes::ButtonCode;
use crate::codes::KeyCode;

verus! {

/// Most physical sources one control can be bound to.
pub const MAX_SLOTS: usize = 32;

/// The physical sources bound to one control.
#[derive(Debug, Clone, PartialEq)]
pub struct ButtonBindings {
    /// Bound keyboard keys; the key at position `i` drives slot `i`.
    pub keys: Vec<KeyCode>,
    /// Bound gamepad buttons; the button at position `i` drives slot
    /// `keys.len() + i`.
    pub buttons: Vec<ButtonCode>,
}

impl ButtonBindings {
    /// Each source bound at most once, and at most 32 slots in all.
    pub open spec fn wf(self) -> bool {
        &&& forall|i: int, j: int|
            0 <= i < j < self.keys@.len() ==> self.keys@[i] != self.keys@[j]
        &&& forall|i: int, j: int|
            0 <= i < j < self.buttons@.len() ==> self.buttons@[i] != self.buttons@[j]
        &&& self.keys@.len() + self.buttons@.len() <= 32
    }

    /// An empty binding set.
    pub fn new() -> (r: Self)
        ensures
            r.wf(),
            r.keys@ =~= Seq::<KeyCode>::empty(),
            r.buttons@ =~= Seq::<ButtonCode>::empty(),
    {
        ButtonBindings { keys: Vec::new(), buttons: Vec::new() }
    }

    /// Binds a keyboard key. Rejected (returns false, set unchanged) when
    /// the key is already bound or all 32 slots are taken.
    pub fn add_key(&mut self, code: KeyCode) -> (added: bool)
        requires
            old(self).wf(),
        ensures
            final(self).wf(),
            added == (!old(self).keys@.contains(code) && old(self).keys@.len() + old(
                self,
            ).buttons@.len() < 32),
            added ==> final(self).keys@ == old(self).keys@.push(code),
            !added ==> *final(self) == *old(self),
            final(self).buttons@ == old(self).buttons@,
    {
        if self.keys.len() + self.buttons.len() >= MAX_SLOTS {
            return false;
        }
        if let Some(_) = find_key_index(&self.keys, code) {
            proof {
                self.keys@.index_of_first_ensures(code);
            }
            return false;
        }
        proof {
            self.keys@.index_of_first_ensures(code);
        }
        self.keys.push(code);
        true
    }

    /// Binds a gamepad button. Rejected (returns false, set unchanged)
    /// when the button is already bound or all 32 slots are taken.
    pub fn add_button(&mut self, code: ButtonCode) -> (added: bool)
        requires
            old(self).wf(),
        ensures
            final(self).wf(),
            added == (!old(self).buttons@.contains(code) && old(self).keys@.len() + old(
                self,
            ).buttons@.len() < 32),
            added ==> final(self).buttons@ == old(self).buttons@.push(code),
            !added ==> *final(self) == *old(self),
            final(self).keys@ == old(self).keys@,
    {
        if self.keys.len() + self.buttons.len() >= MAX_SLOTS {
            return false;
        }
        if let Some(_) = find_button_index(&self.buttons, code) {
            proof {
                self.buttons@.index_of_first_ensures(code);
            }
            return false;
        }
        proof {
            self.buttons@.index_of_first_ensures(code);
        }
        self.buttons.push(code);
        true
    }

    /// A binding set holding a single keyboard key.
    pub fn from_key(code: KeyCode) -> (r: Self)
        ensures
            r.wf(),
            r.keys@ =~= seq![code],
            r.buttons@ =~= Seq::<ButtonCode>::empty(),
    {
        let mut r = ButtonBindings::new();
        r.add_key(code);
        r
    }
}

/// The binding sets of an axis: one per side.
#[derive(Debug, Clone, PartialEq)]
pub struct AxisBindings {
    pub positive: ButtonBindings,
    pub negative: ButtonBindings,
}

impl AxisBindings {
    pub open spec fn wf(self) -> bool {
        self.positive.wf() && self.negative.wf()
    }
}

/// Finds the slot position of a key: the first index where it occurs.
pub(crate) fn find_key_index(keys: &Vec<KeyCode>, code: KeyCode) -> (r: Option<usize>)
    ensures
        r matches Some(i) ==> keys@.index_of_first(code) == Some(i as int),
        r is None ==> keys@.index_of_first(code) is None,
{
    let mut i: usize = 0;
    while i < keys.len()
        invariant
            0 <= i <= keys@.len(),
            forall|j: int| 0 <= j < i ==> keys@[j] != code,
        decreases keys@.len() - i,
    {
        if keys[i] == code {
            proof {
                keys@.index_of_first_ensures(code);
            }
            return Some(i);
        }
        i += 1;
    }
    proof {
        keys@.index_of_first_ensures(code);
    }
    None
}

/// Finds the position of a gamepad button among the bound buttons.
pub(crate) fn find_button_index(buttons: &Vec<ButtonCode>, code: ButtonCode) -> (r: Option<usize>)
    ensures
        r matches Some(i) ==> buttons@.index_of_first(code) == Some(i as int),
        r is None ==> buttons@.index_of_first(code) is None,
{
    let mut i: usize = 0;
    while i < buttons.len()
        invariant
            0 <= i <= buttons@.len(),
            forall|j: int| 0 <= j < i ==> buttons@[j] != code,
        decreases buttons@.len() - i,
    {
        if buttons[i] == code {
            proof {
                buttons@.index_of_first_ensures(code);
            }
            return Some(i);
        }
        i += 1;
    }
    proof {
        buttons@.index_of_first_ensures(code);
    }
    None
}

/// Copies a vector of plain values.
pub(crate) fn copy_vec<T: Copy>(v: &Vec<T>) -> (r: Vec<T>)
    ensures
        r@ == v@,
{
    let mut r: Vec<T> = Vec::new();
    let mut i: usize = 0;
    while i < v.len()
        invariant
            0 <= i <= v@.len(),
            r@ =~= v@.subrange(0, i as int),
        decreases v@.len() - i,
    {
        r.push(v[i]);
        i += 1;
    }
    proof {
        assert(r@ =~= v@);
    }
    r
}

} // verus!
