//! A selectable, filterable list, and the option picker built on it.

use vstd::prelude::*;
use super::keys::Key;
use crate::text::{chars_of, contains, contains_spec, spec_to_lowercase, string_from_range, to_lowercase};

verus! {

broadcast use vstd::string::group_string_axioms;

/// A list of `(label, description)` items with a cursor and a text filter.
pub struct SelectList {
    pub items: Vec<(String, String)>,
    /// Position of the cursor among the filtered items.
    pub selected: usize,
    pub filter: String,
    /// Indices into `items` of the items the filter lets through, ascending.
    pub filtered_indices: Vec<usize>,
    pub scroll_offset: usize,
}

/// Whether `item` passes the lowercased filter `q`: always for an empty
/// filter, otherwise when `q` occurs in the lowercased label or description.
pub open spec fn item_matches(q: Seq<char>, item: (String, String)) -> bool {
    q.len() == 0 || contains_spec(spec_to_lowercase(item.0@), q) || contains_spec(spec_to_lowercase(item.1@), q)
}

/// The indices among the first `n` items that pass `q`, ascending.
pub open spec fn matching_indices(items: Seq<(String, String)>, q: Seq<char>, n: int) -> Seq<usize>
    decreases n,
{
    if n <= 0 {
        Seq::empty()
    } else {
        let r = matching_indices(items, q, n - 1);
        if item_matches(q, items[n - 1]) {
            r.push((n - 1) as usize)
        } else {
            r
        }
    }
}

/// `min(x, y)` on integers.
pub open spec fn min_int(x: int, y: int) -> int {
    if x <= y {
        x
    } else {
        y
    }
}

/// `n - 1`, or 0 for 0 (as `usize::saturating_sub(1)`).
pub open spec fn last_index(n: int) -> int {
    if n > 0 {
        n - 1
    } else {
        0
    }
}

/// The list after moving the cursor up one item (the view follows it).
pub open spec fn moved_up(l: SelectList) -> SelectList {
    if l.selected > 0 {
        let s = (l.selected - 1) as usize;
        SelectList {
            items: l.items,
            selected: s,
            filter: l.filter,
            filtered_indices: l.filtered_indices,
            scroll_offset: if s < l.scroll_offset {
                s
            } else {
                l.scroll_offset
            },
        }
    } else {
        l
    }
}

/// The list after moving the cursor down one item, if there is one below.
pub open spec fn moved_down(l: SelectList) -> SelectList {
    if l.selected + 1 < l.filtered_indices@.len() {
        SelectList {
            items: l.items,
            selected: (l.selected + 1) as usize,
            filter: l.filter,
            filtered_indices: l.filtered_indices,
            scroll_offset: l.scroll_offset,
        }
    } else {
        l
    }
}

/// `new` is `old` with filter `f` applied: the same items, the indices of
/// those that pass `f`, the cursor kept where possible, the view at the top.
pub open spec fn refiltered(old: SelectList, new: SelectList, f: Seq<char>) -> bool {
    &&& new.items == old.items
    &&& new.filter@ == f
    &&& new.filtered_indices@ == matching_indices(old.items@, spec_to_lowercase(f), old.items@.len() as int)
    &&& new.selected as int == min_int(old.selected as int, last_index(new.filtered_indices@.len() as int))
    &&& new.scroll_offset == 0
    &&& new.wf()
}

/// The item index under the cursor, if any.
pub open spec fn selected_index(l: SelectList) -> Option<usize> {
    if l.selected < l.filtered_indices@.len() {
        Some(l.filtered_indices@[l.selected as int])
    } else {
        None
    }
}

impl SelectList {
    /// Every filtered index names an item, the cursor is on a filtered item
    /// (or at 0 when none passes), and the view starts at or before the cursor.
    pub open spec fn wf(&self) -> bool {
        &&& forall|i: int| 0 <= i < self.filtered_indices@.len() ==> #[trigger] self.filtered_indices@[i] < self.items@.len()
        &&& (self.selected < self.filtered_indices@.len() || self.selected == 0)
        &&& self.scroll_offset <= self.selected
    }

    /// A list showing all `items`, cursor on the first.
    pub fn new(items: Vec<(String, String)>) -> (r: Self)
        ensures
            r.items@ == items@,
            r.selected == 0,
            r.filter@ == Seq::<char>::empty(),
            r.filtered_indices@ == Seq::new(items@.len(), |i: int| i as usize),
            r.scroll_offset == 0,
            r.wf(),
    {
        let len = items.len();
        let mut idx: Vec<usize> = Vec::new();
        let mut i: usize = 0;
        while i < len
            invariant
                0 <= i <= len,
                idx@ == Seq::new(i as nat, |j: int| j as usize),
            decreases len - i,
        {
            idx.push(i);
            assert(idx@ =~= Seq::new((i + 1) as nat, |j: int| j as usize));
            i += 1;
        }
        SelectList { items, selected: 0, filter: String::new(), filtered_indices: idx, scroll_offset: 0 }
    }

    /// Recomputes which items pass the filter; the cursor is kept where
    /// possible and the view returns to the top.
    pub fn filter_items(&mut self)
        ensures
            final(self).items == old(self).items,
            final(self).filter == old(self).filter,
            final(self).filtered_indices@ == matching_indices(
                old(self).items@,
                spec_to_lowercase(old(self).filter@),
                old(self).items@.len() as int,
            ),
            final(self).selected as int == min_int(
                old(self).selected as int,
                last_index(final(self).filtered_indices@.len() as int),
            ),
            final(self).scroll_offset == 0,
            final(self).wf(),
    {
        let q = to_lowercase(self.filter.as_str());
        let qempty = q.as_str().is_empty();
        let mut idx: Vec<usize> = Vec::new();
        let mut i: usize = 0;
        let ghost items = self.items@;
        let ghost qv = q@;
        while i < self.items.len()
            invariant
                items == self.items@,
                qv == q@,
                qempty == (qv.len() == 0),
                0 <= i <= items.len(),
                idx@ == matching_indices(items, qv, i as int),
                forall|k: int| 0 <= k < idx@.len() ==> #[trigger] idx@[k] < i,
            decreases self.items.len() - i,
        {
            let label = to_lowercase(self.items[i].0.as_str());
            let desc = to_lowercase(self.items[i].1.as_str());
            if qempty || contains(label.as_str(), q.as_str()) || contains(desc.as_str(), q.as_str()) {
                idx.push(i);
            }
            i += 1;
        }
        let n = idx.len();
        let cap = if n > 0 {
            n - 1
        } else {
            0
        };
        self.filtered_indices = idx;
        if self.selected > cap {
            self.selected = cap;
        }
        self.scroll_offset = 0;
    }

    /// Moves the cursor up one item, scrolling the view up with it.
    pub fn move_up(&mut self)
        requires
            old(self).wf(),
        ensures
            final(self).items == old(self).items,
            final(self).filter == old(self).filter,
            final(self).filtered_indices == old(self).filtered_indices,
            old(self).selected > 0 ==> final(self).selected == old(self).selected - 1 && final(self).scroll_offset == (
            if old(self).selected - 1 < old(self).scroll_offset {
                (old(self).selected - 1) as usize
            } else {
                old(self).scroll_offset
            }),
            old(self).selected == 0 ==> final(self).selected == 0 && final(self).scroll_offset
                == old(self).scroll_offset,
            *final(self) == moved_up(*old(self)),
            final(self).wf(),
    {
        if self.selected > 0 {
            self.selected -= 1;
            if self.selected < self.scroll_offset {
                self.scroll_offset = self.selected;
            }
        }
    }

    /// Moves the cursor down one item, if there is one below.
    pub fn move_down(&mut self)
        requires
            old(self).wf(),
        ensures
            final(self).items == old(self).items,
            final(self).filter == old(self).filter,
            final(self).filtered_indices == old(self).filtered_indices,
            final(self).scroll_offset == old(self).scroll_offset,
            final(self).selected == if old(self).selected + 1 < old(self).filtered_indices@.len() {
                (old(self).selected + 1) as usize
            } else {
                old(self).selected
            },
            *final(self) == moved_down(*old(self)),
            final(self).wf(),
    {
        if self.selected < self.filtered_indices.len() && self.selected + 1 < self.filtered_indices.len() {
            self.selected += 1;
        }
    }

    /// The index into `items` of the item under the cursor, if any.
    pub fn selected_original_index(&self) -> (r: Option<usize>)
        requires
            self.wf(),
        ensures
            r == selected_index(*self),
            r matches Some(i) ==> i < self.items@.len(),
    {
        if self.selected < self.filtered_indices.len() {
            Some(self.filtered_indices[self.selected])
        } else {
            None
        }
    }

    /// Adds `c` to the filter and re-filters.
    pub fn push_filter_char(&mut self, c: char)
        ensures
            final(self).items == old(self).items,
            final(self).filter@ == old(self).filter@.push(c),
            final(self).filtered_indices@ == matching_indices(
                old(self).items@,
                spec_to_lowercase(old(self).filter@.push(c)),
                old(self).items@.len() as int,
            ),
            final(self).selected as int == min_int(
                old(self).selected as int,
                last_index(final(self).filtered_indices@.len() as int),
            ),
            final(self).scroll_offset == 0,
            final(self).wf(),
            refiltered(*old(self), *final(self), old(self).filter@.push(c)),
    {
        crate::text::push_char(&mut self.filter, c);
        self.filter_items();
    }

    /// Drops the filter's last character and re-filters.
    pub fn pop_filter_char(&mut self)
        requires
            old(self).filter@.len() > 0,
        ensures
            final(self).items == old(self).items,
            final(self).filter@ == old(self).filter@.drop_last(),
            final(self).filtered_indices@ == matching_indices(
                old(self).items@,
                spec_to_lowercase(old(self).filter@.drop_last()),
                old(self).items@.len() as int,
            ),
            final(self).selected as int == min_int(
                old(self).selected as int,
                last_index(final(self).filtered_indices@.len() as int),
            ),
            final(self).scroll_offset == 0,
            final(self).wf(),
            refiltered(*old(self), *final(self), old(self).filter@.drop_last()),
    {
        let cs = chars_of(self.filter.as_str());
        self.filter = string_from_range(&cs, 0, cs.len() - 1);
        assert(cs@.subrange(0, cs@.len() - 1) =~= cs@.drop_last());
        self.filter_items();
    }

    /// Empties the filter and re-filters.
    pub fn clear_filter(&mut self)
        ensures
            final(self).items == old(self).items,
            final(self).filter@ == Seq::<char>::empty(),
            final(self).filtered_indices@ == matching_indices(
                old(self).items@,
                spec_to_lowercase(Seq::<char>::empty()),
                old(self).items@.len() as int,
            ),
            final(self).selected as int == min_int(
                old(self).selected as int,
                last_index(final(self).filtered_indices@.len() as int),
            ),
            final(self).scroll_offset == 0,
            final(self).wf(),
            refiltered(*old(self), *final(self), Seq::<char>::empty()),
    {
        self.filter = String::new();
        self.filter_items();
    }
}

/// Whether a key edits a list's filter: a character while the filter is
/// non-empty, or `/` (which adds nothing), or Backspace while non-empty.
pub open spec fn edits_filter(l: SelectList, k: Key) -> bool {
    ||| (k matches Key::Char(c) && (l.filter@.len() > 0 || c == '/'))
    ||| (k is Backspace && l.filter@.len() > 0)
}

/// `new` is `old` after the filter edit of key `k`: a character other than
/// `/` is added, Backspace drops the last one.
pub open spec fn filter_edited(old: SelectList, new: SelectList, k: Key) -> bool {
    match k {
        Key::Char(c) => if c == '/' {
            new == old
        } else {
            refiltered(old, new, old.filter@.push(c))
        },
        Key::Backspace => refiltered(old, new, old.filter@.drop_last()),
        _ => new == old,
    }
}

/// Applies a filter edit to `list` when the key is one (see `edits_filter`);
/// tells whether it was.
pub fn filter_edit(list: &mut SelectList, k: &Key) -> (handled: bool)
    ensures
        handled == edits_filter(*old(list), *k),
        handled ==> filter_edited(*old(list), *final(list), *k),
        !handled ==> *final(list) == *old(list),
{
    let nonempty = !list.filter.as_str().is_empty();
    match k {
        Key::Char(c) => {
            if nonempty || *c == '/' {
                if *c != '/' {
                    list.push_filter_char(*c);
                }
                true
            } else {
                false
            }
        },
        Key::Backspace => {
            if nonempty {
                list.pop_filter_char();
                true
            } else {
                false
            }
        },
        _ => false,
    }
}

/// An option picker shown over a form field.
pub struct ChoicePicker {
    pub field_index: usize,
    pub list: SelectList,
    pub options: Vec<String>,
}

} // verus!
