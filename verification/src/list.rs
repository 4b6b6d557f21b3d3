//! The ordered list of countdowns together with the selection cursor, and
//! the wrap-around navigation over it.

use vstd::prelude::*;

use crate::countdown::{Countdown, CountdownModel};

verus! {

/// An ordered list of countdowns plus a selection cursor. Whenever the list
/// is non-empty the cursor points at an entry; on the empty list it is zero
/// and every accessor reports the emptiness instead of indexing.
#[derive(Debug, Clone, PartialEq)]
pub struct CountdownList {
    pub entries: Vec<Countdown>,
    pub selected_index: usize,
}

/// The mathematical content of a [`CountdownList`].
#[verifier::ext_equal]
pub ghost struct CountdownListModel {
    pub entries: Seq<CountdownModel>,
    pub selected_index: int,
}

impl View for CountdownList {
    type V = CountdownListModel;

    open spec fn view(&self) -> CountdownListModel {
        CountdownListModel {
            entries: self.entries@.map_values(|c: Countdown| c@),
            selected_index: self.selected_index as int,
        }
    }
}

impl CountdownListModel {
    /// Well-formed: the cursor stays inside the list (and is zero on the
    /// empty list), and every entry is well-formed.
    pub open spec fn wf(self) -> bool {
        &&& if self.entries.len() == 0 {
            self.selected_index == 0
        } else {
            0 <= self.selected_index < self.entries.len()
        }
        &&& forall|i: int| 0 <= i < self.entries.len() ==> (#[trigger] self.entries[i]).wf()
    }
}

/// Where the cursor moves when the selection advances by one, wrapping past
/// the last entry back to the first; on an empty list it stays put.
pub open spec fn next_index(i: int, len: int) -> int {
    if len <= 0 {
        i
    } else if i + 1 < len {
        i + 1
    } else {
        0
    }
}

/// Where the cursor moves when the selection steps back by one, wrapping
/// past the first entry to the last; on an empty list it stays put.
pub open spec fn prev_index(i: int, len: int) -> int {
    if len <= 0 {
        i
    } else if i == 0 {
        len - 1
    } else {
        i - 1
    }
}

/// Moving the selection forward then backward, or backward then forward,
/// returns to the original index, across the wrap boundary too.
pub proof fn lemma_select_round_trip(i: int, len: int)
    requires
        len > 0,
        0 <= i < len,
    ensures
        prev_index(next_index(i, len), len) == i,
        next_index(prev_index(i, len), len) == i,
{
}

impl CountdownList {
    pub open spec fn wf(self) -> bool {
        self@.wf()
    }

    /// The empty list.
    pub fn new() -> (r: CountdownList)
        ensures
            r@.entries =~= Seq::<CountdownModel>::empty(),
            r@.selected_index == 0,
            r.wf(),
    {
        CountdownList { entries: Vec::new(), selected_index: 0 }
    }

    /// How many countdowns the list holds.
    pub fn len(&self) -> (r: usize)
        ensures
            r == self@.entries.len(),
    {
        self.entries.len()
    }

    /// The selected countdown, or `None` on the empty list; never indexes
    /// out of bounds.
    pub fn selected(&self) -> (r: Option<&Countdown>)
        requires
            self.wf(),
        ensures
            match r {
                Some(c) => self@.entries.len() > 0 && c@ == self@.entries[self@.selected_index],
                None => self@.entries.len() == 0,
            },
    {
        if self.entries.len() == 0 {
            None
        } else {
            Some(&self.entries[self.selected_index])
        }
    }

    /// Advances the cursor to the next countdown, wrapping to the first one
    /// past the end; a no-op on the empty list.
    pub fn select_next(&mut self)
        requires
            old(self).wf(),
        ensures
            final(self).wf(),
            final(self)@.entries == old(self)@.entries,
            final(self)@.selected_index == next_index(
                old(self)@.selected_index,
                old(self)@.entries.len() as int,
            ),
    {
        let len = self.entries.len();
        if len != 0 {
            proof {
                if self.selected_index + 1 < len {
                    vstd::arithmetic::div_mod::lemma_small_mod(
                        (self.selected_index + 1) as nat,
                        len as nat,
                    );
                } else {
                    vstd::arithmetic::div_mod::lemma_mod_self_0(len as int);
                }
            }
            self.selected_index = (self.selected_index + 1) % len;
        }
    }

    /// Steps the cursor back to the previous countdown, wrapping to the last
    /// one before the start; a no-op on the empty list.
    pub fn select_previous(&mut self)
        requires
            old(self).wf(),
        ensures
            final(self).wf(),
            final(self)@.entries == old(self)@.entries,
            final(self)@.selected_index == prev_index(
                old(self)@.selected_index,
                old(self)@.entries.len() as int,
            ),
    {
        let len = self.entries.len();
        if len != 0 {
            if self.selected_index == 0 {
                self.selected_index = len - 1;
            } else {
                self.selected_index = self.selected_index - 1;
            }
        }
    }
}

} // verus!
