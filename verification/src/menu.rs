//! The cursor of a list menu and the keys that move it.
//!
//! Drawing the list and reading the keyboard are the caller's part; what a
//! key does to the cursor is decided here.

use vstd::prelude::*;

verus! {

/// The keys that the menus tell apart.
#[derive(Clone, Copy, Debug, PartialEq, Eq, Structural)]
pub enum Key {
    /// Arrow up.
    Up,
    /// Arrow down.
    Down,
    /// Enter.
    Enter,
    /// Escape.
    Escape,
    /// The letter `q`.
    Quit,
    /// Any other key.
    Other,
}

/// The cursor of a menu: which of `len` entries is highlighted.
#[derive(Clone, Copy, Debug, PartialEq, Eq, Structural)]
pub struct Selection {
    /// Index of the highlighted entry.
    pub selected: usize,
    /// Number of entries.
    pub len: usize,
}

impl Selection {
    /// The cursor is on an entry; on the first place where there is none.
    pub open spec fn wf(&self) -> bool {
        self.selected < self.len || (self.len == 0 && self.selected == 0)
    }

    /// The cursor after `key`: up and down move it by one entry and stop at
    /// the ends of the list; no other key moves it.
    pub open spec fn moved(&self, key: Key) -> Selection {
        match key {
            Key::Up => if self.selected > 0 {
                Selection { selected: (self.selected - 1) as usize, len: self.len }
            } else {
                *self
            },
            Key::Down => if self.selected + 1 < self.len {
                Selection { selected: (self.selected + 1) as usize, len: self.len }
            } else {
                *self
            },
            _ => *self,
        }
    }

    /// The cursor over a list that now has `len` entries: where it was, or
    /// on the last entry where the list has become shorter than that.
    pub open spec fn fitted(&self, len: usize) -> Selection {
        if self.selected < len {
            Selection { selected: self.selected, len }
        } else if len == 0 {
            Selection { selected: 0, len }
        } else {
            Selection { selected: (len - 1) as usize, len }
        }
    }

    /// A cursor on the first of `len` entries.
    pub fn new(len: usize) -> (selection: Self)
        ensures
            selection == (Selection { selected: 0, len }),
            selection.wf(),
    {
        Selection { selected: 0, len }
    }

    /// Moves the cursor as `key` asks.
    pub fn press(&mut self, key: Key)
        requires
            old(self).wf(),
        ensures
            *final(self) == old(self).moved(key),
            final(self).wf(),
    {
        match key {
            Key::Up => {
                if self.selected > 0 {
                    self.selected = self.selected - 1;
                }
            },
            Key::Down => {
                if self.len > 0 && self.selected < self.len - 1 {
                    self.selected = self.selected + 1;
                }
            },
            _ => {},
        }
    }

    /// Keeps the cursor on the list after the list has changed.
    pub fn resize(&mut self, len: usize)
        ensures
            *final(self) == old(self).fitted(len),
            final(self).wf(),
    {
        if self.selected >= len {
            self.selected = if len == 0 {
                0
            } else {
                len - 1
            };
        }
        self.len = len;
    }
}

} // verus!
