//! Keyboard focus cycling between components.

use vstd::prelude::*;

verus! {

/// Unique identifier of a focusable component.
#[derive(Debug, Clone, Copy, PartialEq, Eq, Hash, Structural)]
pub enum ComponentId {
    StationList,
    FileList,
    IcyTicker,
    SongsTicker,
    NtsPanel,
    FileMeta,
    LogPanel,
    HelpOverlay,
    ScopePanel,
}

/// The focusable components in ring order and the index of the focused one.
pub struct FocusView {
    pub items: Seq<ComponentId>,
    pub current: nat,
}

/// The first position of `id` in `s`, if it occurs.
pub open spec fn first_pos(s: Seq<ComponentId>, id: ComponentId) -> Option<nat> {
    if exists|i: int| 0 <= i < s.len() && s[i] == id {
        Some(
            (choose|i: int|
                0 <= i < s.len() && s[i] == id && forall|j: int| 0 <= j < i ==> s[j] != id) as nat,
        )
    } else {
        None
    }
}

proof fn lemma_first_pos(s: Seq<ComponentId>, id: ComponentId, i: int)
    requires
        0 <= i < s.len(),
        s[i] == id,
        forall|j: int| 0 <= j < i ==> s[j] != id,
    ensures
        first_pos(s, id) == Some(i as nat),
{
    let k = choose|k: int|
        0 <= k < s.len() && s[k] == id && forall|j: int| 0 <= j < k ==> s[j] != id;
    if k < i {
        assert(s[k] != id);
    }
    if i < k {
        assert(s[i] != id);
    }
}

fn position(items: &Vec<ComponentId>, id: ComponentId) -> (r: Option<usize>)
    ensures
        match r {
            Some(i) => first_pos(items@, id) == Some(i as nat) && i < items@.len(),
            None => first_pos(items@, id) is None,
        },
{
    let n = items.len();
    let mut i: usize = 0;
    while i < n
        invariant
            n == items@.len(),
            0 <= i <= n,
            forall|j: int| 0 <= j < i ==> items@[j] != id,
        decreases n - i,
    {
        if items[i] == id {
            proof {
                lemma_first_pos(items@, id, i as int);
            }
            return Some(i);
        }
        i += 1;
    }
    None
}

/// The focused component: the one at the current index, if any.
pub open spec fn focused(v: FocusView) -> Option<ComponentId> {
    if v.current < v.items.len() {
        Some(v.items[v.current as int])
    } else {
        None
    }
}

/// A ring's focus index points into the ring, or is zero when the ring is
/// empty: every ring the operations make or leave is such.
pub open spec fn focus_valid(v: FocusView) -> bool {
    v.current < v.items.len() || v.current == 0
}

/// Manages keyboard focus cycling between components.
pub struct FocusRing {
    items: Vec<ComponentId>,
    current: usize,
}

impl View for FocusRing {
    type V = FocusView;

    closed spec fn view(&self) -> FocusView {
        FocusView { items: self.items@, current: self.current as nat }
    }
}

impl FocusRing {
    /// The index points into the ring, or is zero when the ring is empty.
    #[verifier::type_invariant]
    spec fn wf(self) -> bool {
        self.current < self.items@.len() || self.current == 0
    }

    pub fn new(items: Vec<ComponentId>) -> (r: Self)
        ensures
            r@.items == items@,
            r@.current == 0,
            focus_valid(r@),
    {
        FocusRing { items, current: 0 }
    }

    /// The focused component.
    pub fn current(&self) -> (r: Option<ComponentId>)
        ensures
            r == focused(self@),
            focus_valid(self@),
    {
        proof {
            use_type_invariant(self);
        }
        if self.current < self.items.len() {
            Some(self.items[self.current])
        } else {
            None
        }
    }

    /// Focuses the next component, wrapping around.
    pub fn next(&mut self) -> (r: Option<ComponentId>)
        ensures
            focus_valid(final(self)@),
            final(self)@.items == old(self)@.items,
            old(self)@.items.len() == 0 ==> final(self)@ == old(self)@ && r is None,
            old(self)@.items.len() > 0 ==> final(self)@.current == (old(self)@.current + 1)
                % old(self)@.items.len(),
            r == focused(final(self)@),
    {
        proof {
            use_type_invariant(&*self);
        }
        if self.items.len() == 0 {
            return None;
        }
        self.current = (self.current + 1) % self.items.len();
        self.current()
    }

    /// Focuses the previous component, wrapping around.
    pub fn prev(&mut self) -> (r: Option<ComponentId>)
        ensures
            focus_valid(final(self)@),
            final(self)@.items == old(self)@.items,
            old(self)@.items.len() == 0 ==> final(self)@ == old(self)@ && r is None,
            old(self)@.items.len() > 0 ==> final(self)@.current == (if old(self)@.current == 0 {
                (old(self)@.items.len() - 1) as nat
            } else {
                (old(self)@.current - 1) as nat
            }),
            r == focused(final(self)@),
    {
        proof {
            use_type_invariant(&*self);
        }
        if self.items.len() == 0 {
            return None;
        }
        self.current = if self.current == 0 {
            self.items.len() - 1
        } else {
            self.current - 1
        };
        self.current()
    }

    /// Focuses the first occurrence of `id`; no change when it is not in the ring.
    pub fn set(&mut self, id: ComponentId)
        ensures
            focus_valid(final(self)@),
            final(self)@.items == old(self)@.items,
            match first_pos(old(self)@.items, id) {
                Some(p) => final(self)@.current == p,
                None => final(self)@.current == old(self)@.current,
            },
    {
        proof {
            use_type_invariant(&*self);
        }
        if let Some(pos) = position(&self.items, id) {
            self.current = pos;
        }
    }

    /// True when `id` is the focused component.
    pub fn is_focused(&self, id: ComponentId) -> (r: bool)
        ensures
            r == (focused(self@) == Some(id)),
    {
        match self.current() {
            Some(c) => c == id,
            None => false,
        }
    }

    /// Replaces the ring's contents, keeping the focused component when the
    /// new ring holds it and focusing the first entry otherwise.
    pub fn set_items(&mut self, items: Vec<ComponentId>)
        ensures
            focus_valid(final(self)@),
            final(self)@.items == items@,
            final(self)@.current == (match focused(old(self)@) {
                Some(id) => match first_pos(items@, id) {
                    Some(p) => p,
                    None => 0,
                },
                None => 0,
            }),
    {
        let old = self.current();
        let pos = match old {
            Some(id) => position(&items, id),
            None => None,
        };
        let new_current = match pos {
            Some(p) => p,
            None => 0,
        };
        *self = FocusRing { items, current: new_current };
    }

    /// Focuses the component at `pos`; `None` and no change when out of range.
    pub fn set_by_position(&mut self, pos: usize) -> (r: Option<ComponentId>)
        ensures
            focus_valid(final(self)@),
            final(self)@.items == old(self)@.items,
            pos < old(self)@.items.len() ==> final(self)@.current == pos && r == Some(
                old(self)@.items[pos as int],
            ),
            pos >= old(self)@.items.len() ==> final(self)@ == old(self)@ && r is None,
    {
        proof {
            use_type_invariant(&*self);
        }
        if pos < self.items.len() {
            self.current = pos;
            self.current()
        } else {
            None
        }
    }
}

impl Default for FocusRing {
    fn default() -> (r: Self)
        ensures
            r@.items.len() == 0,
            r@.current == 0,
            focus_valid(r@),
    {
        Self::new(Vec::new())
    }
}

/// Law: on a non-empty ring, moving focus forward and then back (or back and
/// then forward) returns to the component one started from.
pub proof fn law_focus_next_prev(len: nat, c: nat)
    requires
        c < len,
    ensures
        ({
            let n = (c + 1) % len;
            (if n == 0 {
                (len - 1) as nat
            } else {
                (n - 1) as nat
            }) == c
        }),
        ({
            let p = if c == 0 {
                (len - 1) as nat
            } else {
                (c - 1) as nat
            };
            (p + 1) % len == c
        }),
{
    let ci = c as int;
    let l = len as int;
    if ci + 1 == l {
        assert((ci + 1) % l == 0) by (nonlinear_arith)
            requires
                ci + 1 == l,
                l > 0,
        ;
    } else {
        assert((ci + 1) % l == ci + 1) by (nonlinear_arith)
            requires
                0 <= ci,
                ci + 1 < l,
        ;
    }
    if ci == 0 {
        assert(((l - 1) + 1) % l == 0) by (nonlinear_arith)
            requires
                l > 0,
        ;
    } else {
        assert(((ci - 1) + 1) % l == ci) by (nonlinear_arith)
            requires
                0 < ci < l,
        ;
    }
}

/// Law: after focusing a component that is in the ring, it is the focused one.
pub proof fn law_focus_set_then_focused(items: Seq<ComponentId>, id: ComponentId)
    requires
        exists|i: int| 0 <= i < items.len() && items[i] == id,
    ensures
        first_pos(items, id) matches Some(p) && focused(FocusView { items, current: p }) == Some(id),
{
    let i = choose|i: int| 0 <= i < items.len() && items[i] == id;
    lemma_min_pos(items, id, i);
}

proof fn lemma_min_pos(s: Seq<ComponentId>, id: ComponentId, i: int)
    requires
        0 <= i < s.len(),
        s[i] == id,
    ensures
        exists|k: int| 0 <= k < s.len() && s[k] == id && forall|j: int| 0 <= j < k ==> s[j] != id,
    decreases i,
{
    if exists|j: int| 0 <= j < i && s[j] == id {
        let j = choose|j: int| 0 <= j < i && s[j] == id;
        lemma_min_pos(s, id, j);
    } else {
        assert(forall|j: int| 0 <= j < i ==> s[j] != id);
    }
}

} // verus!
