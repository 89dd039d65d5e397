//! The inventory window: slot storage, the cursor-held stack, and the
//! interaction state machine for click, shift-click and paint gestures.
//!
//! A window's transient gesture state is one tagged value: `Idle`, or one
//! open `Painting` session with its direction and touched slots. Every
//! operation either succeeds, or fails with a `GestureError` having changed
//! nothing.

use vstd::prelude::*;
use crate::Item;
use crate::item::{ItemCatalog, ItemStack};

verus! {

/// The distinguishable failures a single gesture can produce.
#[derive(Clone, Copy, Debug, PartialEq, Eq, Structural)]
pub enum GestureError {
    /// A slot index at or beyond the window's logical slot count.
    OutOfBounds,
    /// An end-paint or add-paint-slot call with no open paint session.
    NoPaintSession,
    /// A creative-set action outside creative mode.
    NotCreative,
    /// A creative-set action against a window other than the entity's own
    /// personal inventory.
    NotPlayerWindow,
    /// A (mode, button) pair that names no known gesture.
    UnrecognizedGesture,
}

/// The backing storage a window exposes: the player's own inventory alone,
/// or an external container paired with the player inventory.
#[derive(Clone, Copy, Debug, PartialEq, Eq, Structural)]
pub enum BackingWindow {
    Player { player_slots: usize },
    Paired { container_slots: usize, player_slots: usize },
}

impl BackingWindow {
    pub open spec fn spec_slot_count(self) -> int {
        match self {
            BackingWindow::Player { player_slots } => player_slots as int,
            BackingWindow::Paired { container_slots, player_slots } => container_slots
                + player_slots,
        }
    }

    pub open spec fn is_player(self) -> bool {
        self is Player
    }
}

/// The direction of an open paint session: spread the held stack as evenly
/// as possible, or place a single unit per slot.
#[derive(Clone, Copy, Debug, PartialEq, Eq, Structural)]
pub enum PaintKind {
    Even,
    Single,
}

/// The window's transient gesture state.
#[derive(Debug, Clone, PartialEq, Eq)]
pub enum PaintState {
    Idle,
    Painting { kind: PaintKind, slots: Vec<usize> },
}

/// Slot storage plus the interaction state machine and the cursor stack.
pub struct Window {
    pub backing: BackingWindow,
    pub slots: Vec<Option<ItemStack>>,
    pub cursor: Option<ItemStack>,
    pub paint: PaintState,
}

/// The stack's count, an empty slot counting zero.
pub open spec fn count_of(s: Option<ItemStack>) -> int {
    match s {
        Some(st) => st.count as int,
        None => 0,
    }
}

/// `s` with its count set to `n`, becoming empty at zero. An empty `s`
/// takes `item` and `damage` for the fresh stack.
pub open spec fn with_count(s: Option<ItemStack>, item: Item, damage: Option<u32>, n: int) -> Option<
    ItemStack,
> {
    if n <= 0 {
        None
    } else {
        match s {
            Some(st) => Some(ItemStack { item: st.item, count: n as u32, damage: st.damage }),
            None => Some(ItemStack { item, count: n as u32, damage }),
        }
    }
}

/// The idle single-slot exchange: same item types merge into the slot up
/// to the per-item bound with the overflow left on the cursor; anything
/// else swaps cursor and slot wholesale.
pub open spec fn spec_left_click(
    slots: Seq<Option<ItemStack>>,
    cursor: Option<ItemStack>,
    slot: int,
    cat: ItemCatalog,
) -> (Seq<Option<ItemStack>>, Option<ItemStack>)
    recommends
        0 <= slot < slots.len(),
{
    let s = slots[slot];
    match (cursor, s) {
        (Some(c), Some(st)) => {
            if c.item == st.item {
                let max = cat.spec_max_stack(c.item) as int;
                let space = if (st.count as int) < max {
                    max - st.count
                } else {
                    0
                };
                let moved = if (c.count as int) <= space {
                    c.count as int
                } else {
                    space
                };
                (
                    slots.update(slot, with_count(s, c.item, c.damage, st.count + moved)),
                    with_count(cursor, c.item, c.damage, c.count - moved),
                )
            } else {
                (slots.update(slot, cursor), s)
            }
        },
        _ => (slots.update(slot, cursor), s),
    }
}

/// The one-unit exchange: same item types move one unit from cursor to
/// slot while the slot is below its bound; an empty cursor picks up half
/// the slot, rounded up; different item types swap wholesale.
pub open spec fn spec_right_click(
    slots: Seq<Option<ItemStack>>,
    cursor: Option<ItemStack>,
    slot: int,
    cat: ItemCatalog,
) -> (Seq<Option<ItemStack>>, Option<ItemStack>)
    recommends
        0 <= slot < slots.len(),
{
    let s = slots[slot];
    match (cursor, s) {
        (Some(c), Some(st)) => {
            if c.item == st.item {
                let max = cat.spec_max_stack(c.item) as int;
                let moved: int = if (st.count as int) < max && c.count >= 1 {
                    1
                } else {
                    0
                };
                (
                    slots.update(slot, with_count(s, c.item, c.damage, st.count + moved)),
                    with_count(cursor, c.item, c.damage, c.count - moved),
                )
            } else {
                (slots.update(slot, cursor), s)
            }
        },
        (Some(c), None) => {
            let moved: int = if c.count >= 1 {
                1
            } else {
                0
            };
            (
                slots.update(slot, with_count(s, c.item, c.damage, moved)),
                with_count(cursor, c.item, c.damage, c.count - moved),
            )
        },
        (None, Some(st)) => {
            let keep = (st.count as int) / 2;
            (
                slots.update(slot, with_count(s, st.item, st.damage, keep)),
                with_count(s, st.item, st.damage, st.count - keep),
            )
        },
        (None, None) => (slots, cursor),
    }
}

/// A destination can absorb the whole relocated stack: it is empty, or it
/// holds the same item and has room for every unit.
pub open spec fn shift_compatible(dest: Option<ItemStack>, st: ItemStack, max: int) -> bool {
    match dest {
        None => true,
        Some(d) => d.item == st.item && d.count + st.count <= max,
    }
}

/// First index at or after `j`, other than `from`, that can absorb `st`.
pub open spec fn shift_dest_at(
    slots: Seq<Option<ItemStack>>,
    from: int,
    st: ItemStack,
    max: int,
    j: int,
) -> Option<int>
    decreases slots.len() - j,
{
    if j < 0 || j >= slots.len() {
        None
    } else if j != from && shift_compatible(slots[j], st, max) {
        Some(j)
    } else {
        shift_dest_at(slots, from, st, max, j + 1)
    }
}

/// The relocated stack merged into its destination.
pub open spec fn shift_merged(dest: Option<ItemStack>, st: ItemStack) -> Option<ItemStack> {
    match dest {
        None => Some(st),
        Some(d) => Some(ItemStack { item: d.item, count: (d.count + st.count) as u32, damage: d.damage }),
    }
}

/// The shift-click relocation: the slot's whole stack moves to the first
/// destination with capacity, and nothing changes when none exists.
pub open spec fn spec_shift_click(
    slots: Seq<Option<ItemStack>>,
    slot: int,
    cat: ItemCatalog,
) -> Seq<Option<ItemStack>>
    recommends
        0 <= slot < slots.len(),
{
    match slots[slot] {
        None => slots,
        Some(st) => {
            let max = cat.spec_max_stack(st.item) as int;
            match shift_dest_at(slots, slot, st, max, 0) {
                None => slots,
                Some(j) => slots.update(j, shift_merged(slots[j], st)).update(slot, None),
            }
        },
    }
}

impl Window {
    /// Slot storage sized to the backing, and touched paint slots that are
    /// in bounds and pairwise distinct.
    pub open spec fn wf(self) -> bool {
        &&& self.slots@.len() == self.backing.spec_slot_count()
        &&& match self.paint {
            PaintState::Idle => true,
            PaintState::Painting { kind, slots } => {
                &&& forall|k: int|
                    0 <= k < slots@.len() ==> (slots@[k] as int) < self.slots@.len()
                &&& forall|k1: int, k2: int|
                    0 <= k1 < k2 < slots@.len() ==> slots@[k1] != slots@[k2]
            },
        }
    }

    /// A fresh window over `backing`: all slots empty, no cursor stack,
    /// no open paint session.
    pub fn new(backing: BackingWindow) -> (r: Window)
        requires
            backing.spec_slot_count() <= usize::MAX,
        ensures
            r.wf(),
            r.backing == backing,
            r.slots@.len() == backing.spec_slot_count(),
            forall|k: int| 0 <= k < r.slots@.len() ==> r.slots@[k] is None,
            r.cursor is None,
            r.paint == PaintState::Idle,
    {
        let n: usize = match backing {
            BackingWindow::Player { player_slots } => player_slots,
            BackingWindow::Paired { container_slots, player_slots } => container_slots
                + player_slots,
        };
        let mut slots: Vec<Option<ItemStack>> = Vec::new();
        let mut i: usize = 0;
        while i < n
            invariant
                0 <= i <= n,
                slots@.len() == i,
                forall|k: int| 0 <= k < i ==> slots@[k] is None,
            decreases n - i,
        {
            slots.push(None);
            i = i + 1;
        }
        Window { backing, slots, cursor: None, paint: PaintState::Idle }
    }

    pub fn slot_count(&self) -> (r: usize)
        ensures
            r == self.slots@.len(),
    {
        self.slots.len()
    }

    /// The slot's contents; out-of-bounds indices fail.
    pub fn item(&self, slot: usize) -> (r: Result<Option<ItemStack>, GestureError>)
        ensures
            match r {
                Ok(v) => slot < self.slots@.len() && v == self.slots@[slot as int],
                Err(e) => e == GestureError::OutOfBounds && slot >= self.slots@.len(),
            },
    {
        if slot >= self.slots.len() {
            return Err(GestureError::OutOfBounds);
        }
        Ok(self.slots[slot])
    }

    /// The cursor-held stack.
    pub fn cursor_item(&self) -> (r: Option<ItemStack>)
        ensures
            r == self.cursor,
    {
        self.cursor
    }

    /// Overwrites the slot's contents; out-of-bounds indices fail with
    /// nothing changed.
    pub fn set_item(&mut self, slot: usize, item: Option<ItemStack>) -> (r: Result<
        (),
        GestureError,
    >)
        requires
            old(self).wf(),
        ensures
            final(self).wf(),
            final(self).backing == old(self).backing,
            final(self).cursor == old(self).cursor,
            final(self).paint == old(self).paint,
            match r {
                Ok(()) => slot < old(self).slots@.len() && final(self).slots@ == old(
                    self,
                ).slots@.update(slot as int, item),
                Err(e) => e == GestureError::OutOfBounds && slot >= old(self).slots@.len() && *final(self) == *old(self),
            },
    {
        if slot >= self.slots.len() {
            return Err(GestureError::OutOfBounds);
        }
        self.slots.set(slot, item);
        Ok(())
    }

    /// Removes and returns the slot's entire contents, `None` if the slot
    /// was already empty.
    pub fn drop_item(&mut self, slot: usize) -> (r: Result<Option<ItemStack>, GestureError>)
        requires
            old(self).wf(),
        ensures
            final(self).wf(),
            final(self).backing == old(self).backing,
            final(self).cursor == old(self).cursor,
            final(self).paint == old(self).paint,
            match r {
                Ok(taken) => slot < old(self).slots@.len() && taken == old(self).slots@[slot as int]
                    && final(self).slots@ == old(self).slots@.update(slot as int, None),
                Err(e) => e == GestureError::OutOfBounds && slot >= old(self).slots@.len() && *final(self) == *old(self),
            },
    {
        if slot >= self.slots.len() {
            return Err(GestureError::OutOfBounds);
        }
        let taken = self.slots[slot];
        self.slots.set(slot, None);
        Ok(taken)
    }

    /// The idle single-slot exchange (see `spec_left_click`).
    pub fn left_click(&mut self, slot: usize, catalog: &ItemCatalog) -> (r: Result<
        (),
        GestureError,
    >)
        requires
            old(self).wf(),
        ensures
            final(self).wf(),
            final(self).backing == old(self).backing,
            final(self).paint == old(self).paint,
            match r {
                Ok(()) => slot < old(self).slots@.len() && (final(self).slots@, final(self).cursor)
                    == spec_left_click(old(self).slots@, old(self).cursor, slot as int, *catalog),
                Err(e) => e == GestureError::OutOfBounds && slot >= old(self).slots@.len() && *final(self) == *old(self),
            },
    {
        if slot >= self.slots.len() {
            return Err(GestureError::OutOfBounds);
        }
        let cur = self.cursor;
        let st = self.slots[slot];
        match (cur, st) {
            (Some(c), Some(s)) => {
                if c.item == s.item {
                    let max = catalog.max_stack(c.item);
                    let space = if s.count < max {
                        max - s.count
                    } else {
                        0
                    };
                    let moved = if c.count <= space {
                        c.count
                    } else {
                        space
                    };
                    let newcount = s.count + moved;
                    self.slots.set(
                        slot,
                        if newcount == 0 {
                            None
                        } else {
                            Some(ItemStack { item: s.item, count: newcount, damage: s.damage })
                        },
                    );
                    self.cursor = if c.count - moved == 0 {
                        None
                    } else {
                        Some(ItemStack { item: c.item, count: c.count - moved, damage: c.damage })
                    };
                } else {
                    self.slots.set(slot, cur);
                    self.cursor = st;
                }
            },
            _ => {
                self.slots.set(slot, cur);
                self.cursor = st;
            },
        }
        Ok(())
    }

    /// The one-unit exchange (see `spec_right_click`).
    pub fn right_click(&mut self, slot: usize, catalog: &ItemCatalog) -> (r: Result<
        (),
        GestureError,
    >)
        requires
            old(self).wf(),
        ensures
            final(self).wf(),
            final(self).backing == old(self).backing,
            final(self).paint == old(self).paint,
            match r {
                Ok(()) => slot < old(self).slots@.len() && (final(self).slots@, final(self).cursor)
                    == spec_right_click(old(self).slots@, old(self).cursor, slot as int, *catalog),
                Err(e) => e == GestureError::OutOfBounds && slot >= old(self).slots@.len() && *final(self) == *old(self),
            },
    {
        if slot >= self.slots.len() {
            return Err(GestureError::OutOfBounds);
        }
        let cur = self.cursor;
        let st = self.slots[slot];
        match (cur, st) {
            (Some(c), Some(s)) => {
                if c.item == s.item {
                    let max = catalog.max_stack(c.item);
                    let moved: u32 = if s.count < max && c.count >= 1 {
                        1
                    } else {
                        0
                    };
                    let newcount = s.count + moved;
                    self.slots.set(
                        slot,
                        if newcount == 0 {
                            None
                        } else {
                            Some(ItemStack { item: s.item, count: newcount, damage: s.damage })
                        },
                    );
                    self.cursor = if c.count - moved == 0 {
                        None
                    } else {
                        Some(ItemStack { item: c.item, count: c.count - moved, damage: c.damage })
                    };
                } else {
                    self.slots.set(slot, cur);
                    self.cursor = st;
                }
            },
            (Some(c), None) => {
                let moved: u32 = if c.count >= 1 {
                    1
                } else {
                    0
                };
                self.slots.set(
                    slot,
                    if moved == 0 {
                        None
                    } else {
                        Some(ItemStack { item: c.item, count: moved, damage: c.damage })
                    },
                );
                self.cursor = if c.count - moved == 0 {
                    None
                } else {
                    Some(ItemStack { item: c.item, count: c.count - moved, damage: c.damage })
                };
            },
            (None, Some(s)) => {
                let keep = s.count / 2;
                self.slots.set(
                    slot,
                    if keep == 0 {
                        None
                    } else {
                        Some(ItemStack { item: s.item, count: keep, damage: s.damage })
                    },
                );
                self.cursor = if s.count - keep == 0 {
                    None
                } else {
                    Some(ItemStack { item: s.item, count: s.count - keep, damage: s.damage })
                };
            },
            (None, None) => {},
        }
        Ok(())
    }

    /// Relocates the slot's entire stack into the first destination with
    /// capacity; a no-op, not an error, when none has it.
    pub fn shift_click(&mut self, slot: usize, catalog: &ItemCatalog) -> (r: Result<
        (),
        GestureError,
    >)
        requires
            old(self).wf(),
        ensures
            final(self).wf(),
            final(self).backing == old(self).backing,
            final(self).cursor == old(self).cursor,
            final(self).paint == old(self).paint,
            match r {
                Ok(()) => slot < old(self).slots@.len() && final(self).slots@ == spec_shift_click(
                    old(self).slots@,
                    slot as int,
                    *catalog,
                ),
                Err(e) => e == GestureError::OutOfBounds && slot >= old(self).slots@.len() && *final(self) == *old(self),
            },
    {
        if slot >= self.slots.len() {
            return Err(GestureError::OutOfBounds);
        }
        let st = match self.slots[slot] {
            None => {
                return Ok(());
            },
            Some(st) => st,
        };
        let max = catalog.max_stack(st.item);
        let mut j: usize = 0;
        while j < self.slots.len()
            invariant
                0 <= j <= self.slots@.len(),
                slot < self.slots@.len(),
                self.slots@ == old(self).slots@,
                self.backing == old(self).backing,
                self.cursor == old(self).cursor,
                self.paint == old(self).paint,
                old(self).wf(),
                self.slots@[slot as int] == Some(st),
                max == catalog.spec_max_stack(st.item),
                shift_dest_at(self.slots@, slot as int, st, max as int, 0) == shift_dest_at(
                    self.slots@,
                    slot as int,
                    st,
                    max as int,
                    j as int,
                ),
            decreases self.slots@.len() - j,
        {
            if j != slot {
                let compatible = match self.slots[j] {
                    None => true,
                    Some(d) => d.item == st.item && (d.count as u64) + (st.count as u64) <= (
                    max as u64),
                };
                if compatible {
                    let merged = match self.slots[j] {
                        None => Some(st),
                        Some(d) => Some(
                            ItemStack { item: d.item, count: d.count + st.count, damage: d.damage },
                        ),
                    };
                    self.slots.set(j, merged);
                    self.slots.set(slot, None);
                    return Ok(());
                }
            }
            j = j + 1;
        }
        Ok(())
    }
}


/// A touched slot is eligible for painting: empty, or holding the cursor's
/// item type below its stack bound.
pub open spec fn is_eligible(s: Option<ItemStack>, c_item: Item, max: int) -> bool {
    match s {
        None => true,
        Some(st) => st.item == c_item && (st.count as int) < max,
    }
}

/// How many of the touched slots at or after `i` are eligible.
pub open spec fn count_eligible(
    slots: Seq<Option<ItemStack>>,
    touched: Seq<usize>,
    c_item: Item,
    max: int,
    i: int,
) -> int
    decreases touched.len() - i,
{
    if i < 0 || i >= touched.len() {
        0
    } else {
        (if is_eligible(slots[touched[i] as int], c_item, max) {
            1int
        } else {
            0int
        }) + count_eligible(slots, touched, c_item, max, i + 1)
    }
}

pub proof fn lemma_count_eligible_nonneg(
    slots: Seq<Option<ItemStack>>,
    touched: Seq<usize>,
    c_item: Item,
    max: int,
    i: int,
)
    ensures
        count_eligible(slots, touched, c_item, max, i) >= 0,
    decreases touched.len() - i,
{
    if 0 <= i < touched.len() {
        lemma_count_eligible_nonneg(slots, touched, c_item, max, i + 1);
    }
}

/// Writing a slot no later touched slot names leaves the eligible count
/// over the later touched slots unchanged.
pub proof fn lemma_count_eligible_update(
    slots: Seq<Option<ItemStack>>,
    touched: Seq<usize>,
    c_item: Item,
    max: int,
    i: int,
    t: int,
    v: Option<ItemStack>,
)
    requires
        0 <= t < slots.len(),
        forall|k: int| 0 <= k < touched.len() ==> (touched[k] as int) < slots.len(),
        forall|k: int| i <= k < touched.len() ==> (touched[k] as int) != t,
    ensures
        count_eligible(slots.update(t, v), touched, c_item, max, i) == count_eligible(
            slots,
            touched,
            c_item,
            max,
            i,
        ),
    decreases touched.len() - i,
{
    if 0 <= i < touched.len() {
        assert(slots.update(t, v)[touched[i] as int] == slots[touched[i] as int]);
        lemma_count_eligible_update(slots, touched, c_item, max, i + 1, t, v);
    }
}

/// Distributes the held stack over the touched slots from `i` on: each
/// eligible slot takes `share` units in even direction, capped by its
/// room, or one unit while any remain in single direction. Returns the new
/// slot contents paired with what is left of the held count.
pub open spec fn spec_paint_fill(
    slots: Seq<Option<ItemStack>>,
    touched: Seq<usize>,
    i: int,
    c: ItemStack,
    share: int,
    single: bool,
    remaining: int,
    max: int,
) -> (Seq<Option<ItemStack>>, int)
    decreases touched.len() - i,
{
    if i < 0 || i >= touched.len() {
        (slots, remaining)
    } else {
        let t = touched[i] as int;
        if is_eligible(slots[t], c.item, max) {
            let cur = count_of(slots[t]);
            let add = if single {
                if remaining > 0 {
                    1int
                } else {
                    0int
                }
            } else {
                if share <= max - cur {
                    share
                } else {
                    max - cur
                }
            };
            let slots2 = slots.update(t, with_count(slots[t], c.item, c.damage, cur + add));
            spec_paint_fill(slots2, touched, i + 1, c, share, single, remaining - add, max)
        } else {
            spec_paint_fill(slots, touched, i + 1, c, share, single, remaining, max)
        }
    }
}

/// How one completed end-paint call relates the slot contents and cursor
/// after the call to those before it.
pub open spec fn end_paint_rel(
    slots: Seq<Option<ItemStack>>,
    cursor: Option<ItemStack>,
    touched: Seq<usize>,
    kind: PaintKind,
    cat: ItemCatalog,
    new_slots: Seq<Option<ItemStack>>,
    new_cursor: Option<ItemStack>,
) -> bool {
    match cursor {
        None => new_slots == slots && new_cursor == cursor,
        Some(c) => {
            let max = cat.spec_max_stack(c.item) as int;
            let n = count_eligible(slots, touched, c.item, max, 0);
            let single = kind is Single;
            let share = if single {
                1int
            } else if n > 0 {
                (c.count as int) / n
            } else {
                0int
            };
            let fill = spec_paint_fill(slots, touched, 0, c, share, single, c.count as int, max);
            new_slots == fill.0 && new_cursor == with_count(cursor, c.item, c.damage, fill.1)
        },
    }
}

/// The touched-slot list after adding `slot`: appended once, the addition
/// being idempotent per slot.
pub open spec fn paint_slots_after_add(ts: Seq<usize>, slot: usize) -> Seq<usize> {
    if ts.contains(slot) {
        ts
    } else {
        ts.push(slot)
    }
}

impl Window {
    /// Opens an even-direction paint session, discarding any prior one.
    pub fn begin_left_mouse_paint(&mut self)
        requires
            old(self).wf(),
        ensures
            final(self).wf(),
            final(self).backing == old(self).backing,
            final(self).slots == old(self).slots,
            final(self).cursor == old(self).cursor,
            (final(self).paint matches PaintState::Painting { kind, slots } && kind
                == PaintKind::Even && slots@.len() == 0),
    {
        self.paint = PaintState::Painting { kind: PaintKind::Even, slots: Vec::new() };
    }

    /// Opens a single-unit-direction paint session, discarding any prior
    /// one.
    pub fn begin_right_mouse_paint(&mut self)
        requires
            old(self).wf(),
        ensures
            final(self).wf(),
            final(self).backing == old(self).backing,
            final(self).slots == old(self).slots,
            final(self).cursor == old(self).cursor,
            (final(self).paint matches PaintState::Painting { kind, slots } && kind
                == PaintKind::Single && slots@.len() == 0),
    {
        self.paint = PaintState::Painting { kind: PaintKind::Single, slots: Vec::new() };
    }

    /// Appends the slot to the open session's touched set, once per slot;
    /// fails when no session is open or the slot is out of bounds.
    pub fn add_paint_slot(&mut self, slot: usize) -> (r: Result<(), GestureError>)
        requires
            old(self).wf(),
        ensures
            final(self).wf(),
            final(self).backing == old(self).backing,
            final(self).slots == old(self).slots,
            final(self).cursor == old(self).cursor,
            match r {
                Ok(()) => (slot as int) < old(self).slots@.len() && (old(self).paint matches
                    PaintState::Painting { kind, slots: ts } && (final(self).paint matches
                    PaintState::Painting { kind: k2, slots: ts2 } && k2 == kind && ts2@
                    == paint_slots_after_add(ts@, slot))),
                Err(GestureError::NoPaintSession) => old(self).paint is Idle && *final(self)
                    == *old(self),
                Err(GestureError::OutOfBounds) => old(self).paint is Painting && slot >= old(
                    self,
                ).slots@.len() && *final(self) == *old(self),
                Err(_) => false,
            },
    {
        let n = self.slots.len();
        let mut p = PaintState::Idle;
        core::mem::swap(&mut self.paint, &mut p);
        match p {
            PaintState::Idle => Err(GestureError::NoPaintSession),
            PaintState::Painting { kind, slots: mut ts } => {
                if slot >= n {
                    self.paint = PaintState::Painting { kind, slots: ts };
                    return Err(GestureError::OutOfBounds);
                }
                let mut found = false;
                let mut i: usize = 0;
                while i < ts.len()
                    invariant
                        0 <= i <= ts@.len(),
                        found == (exists|k: int| 0 <= k < i && ts@[k] == slot),
                    decreases ts@.len() - i,
                {
                    if ts[i] == slot {
                        found = true;
                    }
                    i = i + 1;
                }
                assert(found == ts@.contains(slot));
                let ghost ts0 = ts@;
                if !found {
                    ts.push(slot);
                    assert forall|k1: int, k2: int| 0 <= k1 < k2 < ts@.len() implies ts@[k1]
                        != ts@[k2] by {
                        if k2 == ts@.len() - 1 {
                            assert(!ts0.contains(slot));
                        }
                    }
                }
                self.paint = PaintState::Painting { kind, slots: ts };
                Ok(())
            },
        }
    }

    /// Closes the open paint session and distributes the cursor stack over
    /// the eligible touched slots: the even direction splits the held count
    /// as evenly as possible, the single direction places one unit per
    /// slot. The session closes unconditionally; with no session open the
    /// call fails and changes nothing.
    pub fn end_paint(&mut self, catalog: &ItemCatalog) -> (r: Result<(), GestureError>)
        requires
            old(self).wf(),
        ensures
            final(self).wf(),
            final(self).backing == old(self).backing,
            match r {
                Err(e) => e == GestureError::NoPaintSession && old(self).paint is Idle
                    && *final(self) == *old(self),
                Ok(()) => (old(self).paint matches PaintState::Painting { kind, slots: touched }
                    && final(self).paint == PaintState::Idle && end_paint_rel(
                    old(self).slots@,
                    old(self).cursor,
                    touched@,
                    kind,
                    *catalog,
                    final(self).slots@,
                    final(self).cursor,
                )),
            },
    {
        let mut p = PaintState::Idle;
        core::mem::swap(&mut self.paint, &mut p);
        let (kind, touched) = match p {
            PaintState::Idle => {
                return Err(GestureError::NoPaintSession);
            },
            PaintState::Painting { kind, slots } => (kind, slots),
        };
        let c = match self.cursor {
            None => {
                return Ok(());
            },
            Some(c) => c,
        };
        let max = catalog.max_stack(c.item);
        let single = match kind {
            PaintKind::Single => true,
            PaintKind::Even => false,
        };
        let ghost slots0 = self.slots@;

        // First pass: how many touched slots are eligible.
        let mut n: usize = 0;
        let mut i: usize = 0;
        while i < touched.len()
            invariant
                0 <= i <= touched@.len(),
                n <= i,
                self.slots@ == slots0,
                max == catalog.spec_max_stack(c.item),
                forall|k: int| 0 <= k < touched@.len() ==> (touched@[k] as int) < slots0.len(),
                count_eligible(slots0, touched@, c.item, max as int, 0) == n + count_eligible(
                    slots0,
                    touched@,
                    c.item,
                    max as int,
                    i as int,
                ),
            decreases touched@.len() - i,
        {
            let t = touched[i];
            let elig = match self.slots[t] {
                None => true,
                Some(st) => st.item == c.item && st.count < max,
            };
            if elig {
                n = n + 1;
            }
            i = i + 1;
        }
        proof {
            lemma_count_eligible_nonneg(slots0, touched@, c.item, max as int, touched@.len() as int);
        }

        let share: u32 = if single {
            1
        } else if n > 0 {
            ((c.count as usize) / n) as u32
        } else {
            0
        };
        proof {
            if !single && n > 0 {
                vstd::arithmetic::div_mod::lemma_fundamental_div_mod(c.count as int, n as int);
                vstd::arithmetic::div_mod::lemma_mod_bound(c.count as int, n as int);
                vstd::arithmetic::mul::lemma_mul_is_commutative(n as int, share as int);
            }
        }

        // Second pass: distribute.
        let mut remaining: u32 = c.count;
        let mut j: usize = 0;
        while j < touched.len()
            invariant
                0 <= j <= touched@.len(),
                max == catalog.spec_max_stack(c.item),
                self.backing == old(self).backing,
                self.cursor == old(self).cursor,
                self.cursor == Some(c),
                self.paint == PaintState::Idle,
                self.slots@.len() == slots0.len(),
                slots0.len() == old(self).slots@.len(),
                forall|k: int| 0 <= k < touched@.len() ==> (touched@[k] as int) < slots0.len(),
                forall|k1: int, k2: int|
                    0 <= k1 < k2 < touched@.len() ==> touched@[k1] != touched@[k2],
                spec_paint_fill(
                    slots0,
                    touched@,
                    0,
                    c,
                    share as int,
                    single,
                    c.count as int,
                    max as int,
                ) == spec_paint_fill(
                    self.slots@,
                    touched@,
                    j as int,
                    c,
                    share as int,
                    single,
                    remaining as int,
                    max as int,
                ),
                !single ==> remaining as int >= (share as int) * count_eligible(
                    self.slots@,
                    touched@,
                    c.item,
                    max as int,
                    j as int,
                ),
            decreases touched@.len() - j,
        {
            let t = touched[j];
            let s = self.slots[t];
            let elig = match s {
                None => true,
                Some(st) => st.item == c.item && st.count < max,
            };
            if elig {
                let cur: u32 = match s {
                    Some(st) => st.count,
                    None => 0,
                };
                let add: u32 = if single {
                    if remaining > 0 {
                        1
                    } else {
                        0
                    }
                } else {
                    if share <= max - cur {
                        share
                    } else {
                        max - cur
                    }
                };
                proof {
                    lemma_count_eligible_nonneg(
                        self.slots@,
                        touched@,
                        c.item,
                        max as int,
                        j as int + 1,
                    );
                    if !single {
                        let cnt_next = count_eligible(
                            self.slots@,
                            touched@,
                            c.item,
                            max as int,
                            j as int + 1,
                        );
                        vstd::arithmetic::mul::lemma_mul_is_distributive_add(
                            share as int,
                            1int,
                            cnt_next,
                        );
                    }
                }
                let newcount = cur + add;
                let newslot = if newcount == 0 {
                    None
                } else {
                    match s {
                        Some(stk) => Some(
                            ItemStack { item: stk.item, count: newcount, damage: stk.damage },
                        ),
                        None => Some(ItemStack { item: c.item, count: newcount, damage: c.damage }),
                    }
                };
                proof {
                    assert(newslot == with_count(s, c.item, c.damage, cur as int + add as int));
                    lemma_count_eligible_update(
                        self.slots@,
                        touched@,
                        c.item,
                        max as int,
                        j as int + 1,
                        t as int,
                        newslot,
                    );
                }
                self.slots.set(t, newslot);
                remaining = remaining - add;
            }
            j = j + 1;
        }
        self.cursor = if remaining == 0 {
            None
        } else {
            Some(ItemStack { item: c.item, count: remaining, damage: c.damage })
        };
        Ok(())
    }
}

/// A left click with a non-empty cursor over an empty slot moves the whole
/// cursor stack into the slot and empties the cursor; with an empty cursor
/// over an occupied slot the exchange runs the other way.
pub proof fn lemma_left_click_exchange(
    slots: Seq<Option<ItemStack>>,
    cursor: Option<ItemStack>,
    slot: int,
    cat: ItemCatalog,
)
    requires
        0 <= slot < slots.len(),
    ensures
        cursor is Some && slots[slot] is None ==> spec_left_click(slots, cursor, slot, cat) == (
        slots.update(slot, cursor), Option::<ItemStack>::None),
        cursor is None && slots[slot] is Some ==> spec_left_click(slots, cursor, slot, cat) == (
        slots.update(slot, Option::<ItemStack>::None), slots[slot]),
{
}

} // verus!
