//! The click dispatcher: routes an inbound gesture to the window operation
//! it names, enforces the creative-action preconditions, and assembles the
//! fixed sequence of outbound confirmation messages on success.
//!
//! A failed gesture returns its error with the whole outbound sequence
//! suppressed: it never appears to the far side as a success.

use vstd::prelude::*;
use crate::events::DropItemEvent;
use crate::item::{ItemCatalog, ItemStack};
use crate::window::{
    end_paint_rel, paint_slots_after_add, spec_left_click, spec_right_click, spec_shift_click,
    BackingWindow, GestureError, PaintKind, PaintState, Window,
};

verus! {

/// The acting entity's game mode.
#[derive(Clone, Copy, Debug, PartialEq, Eq, Structural)]
pub enum Gamemode {
    Survival,
    Creative,
    Adventure,
    Spectator,
}

/// The fields of an inbound click-window gesture.
#[derive(Clone, Copy, Debug, PartialEq, Eq, Structural)]
pub struct ClickWindow {
    pub window_id: u8,
    /// Signed: a negative index means "no slot".
    pub slot: i16,
    pub button: u8,
    pub mode: u8,
    /// Echoed in the confirmation.
    pub action_number: i16,
}

/// The fields of an inbound creative-set gesture.
#[derive(Clone, Copy, Debug, PartialEq, Eq, Structural)]
pub struct CreativeInventoryAction {
    /// Signed: −1 discards the held item as a no-op.
    pub slot: i16,
    pub clicked_item: Option<ItemStack>,
}

/// The action confirmation, first of the fixed outbound messages.
#[derive(Clone, Copy, Debug, PartialEq, Eq, Structural)]
pub struct Confirmation {
    pub window_id: u8,
    pub action_number: i16,
    pub accepted: bool,
}

/// The fixed outbound messages of one successful gesture, in sending
/// order, plus the drop event a drop gesture may raise.
#[derive(Debug)]
pub struct ClickOutcome {
    pub confirmation: Confirmation,
    /// Present exactly when the gesture named a slot index of zero or more.
    pub slot_update: Option<(i16, Option<ItemStack>)>,
    pub cursor: Option<ItemStack>,
    pub window_items: Vec<Option<ItemStack>>,
    pub drop: Option<DropItemEvent>,
}

/// The (mode, button) pairs that name a gesture.
pub open spec fn supported_gesture(mode: u8, button: u8) -> bool {
    ||| (mode == 0 && (button == 0 || button == 1))
    ||| mode == 1
    ||| mode == 4
    ||| (mode == 5 && (button == 0 || button == 4 || button == 1 || button == 5 || button == 2
        || button == 6))
}

/// The open paint session gained `slot` in its touched set, once.
pub open spec fn paint_add_rel(p0: PaintState, p1: PaintState, slot: usize) -> bool {
    (p0 matches PaintState::Painting { kind, slots: ts } && (p1 matches PaintState::Painting {
        kind: k2,
        slots: ts2,
    } && k2 == kind && ts2@ == paint_slots_after_add(ts@, slot)))
}

/// How a window after a successfully routed gesture relates to the window
/// before it.
pub open spec fn gesture_applied(w0: Window, w1: Window, packet: ClickWindow, cat: ItemCatalog) -> bool {
    let slot = packet.slot as int;
    let m = packet.mode;
    let b = packet.button;
    if m == 0 && b == 0 {
        w1.paint == w0.paint && (w1.slots@, w1.cursor) == spec_left_click(
            w0.slots@,
            w0.cursor,
            slot,
            cat,
        )
    } else if m == 0 && b == 1 {
        w1.paint == w0.paint && (w1.slots@, w1.cursor) == spec_right_click(
            w0.slots@,
            w0.cursor,
            slot,
            cat,
        )
    } else if m == 1 {
        w1.paint == w0.paint && w1.cursor == w0.cursor && w1.slots@ == spec_shift_click(
            w0.slots@,
            slot,
            cat,
        )
    } else if m == 4 {
        w1.paint == w0.paint && w1.cursor == w0.cursor && w1.slots@ == w0.slots@.update(slot, None)
    } else if m == 5 && b == 0 {
        w1.slots == w0.slots && w1.cursor == w0.cursor && (w1.paint matches PaintState::Painting {
            kind,
            slots,
        } && kind == PaintKind::Even && slots@.len() == 0)
    } else if m == 5 && b == 4 {
        w1.slots == w0.slots && w1.cursor == w0.cursor && (w1.paint matches PaintState::Painting {
            kind,
            slots,
        } && kind == PaintKind::Single && slots@.len() == 0)
    } else if m == 5 && (b == 1 || b == 5) {
        w1.slots == w0.slots && w1.cursor == w0.cursor && paint_add_rel(
            w0.paint,
            w1.paint,
            packet.slot as usize,
        )
    } else if m == 5 && (b == 2 || b == 6) {
        (w0.paint matches PaintState::Painting { kind, slots: touched } && w1.paint
            == PaintState::Idle && end_paint_rel(
            w0.slots@,
            w0.cursor,
            touched@,
            kind,
            cat,
            w1.slots@,
            w1.cursor,
        ))
    } else {
        false
    }
}

/// The error one gesture yields against one window, or `None` when it
/// succeeds: the routed operation's own failure, or the failed lookup of a
/// named slot that lies out of bounds after a slot-independent operation.
pub open spec fn spec_gesture_error(w0: Window, packet: ClickWindow) -> Option<GestureError> {
    let m = packet.mode;
    let b = packet.button;
    let len = w0.slots@.len() as int;
    if !supported_gesture(m, b) {
        Some(GestureError::UnrecognizedGesture)
    } else if m == 0 || m == 1 || m == 4 {
        if packet.slot < 0 || packet.slot as int >= len {
            Some(GestureError::OutOfBounds)
        } else {
            None
        }
    } else if m == 5 && (b == 1 || b == 5) {
        if packet.slot < 0 {
            Some(GestureError::OutOfBounds)
        } else if w0.paint is Idle {
            Some(GestureError::NoPaintSession)
        } else if packet.slot as int >= len {
            Some(GestureError::OutOfBounds)
        } else {
            None
        }
    } else if m == 5 && (b == 2 || b == 6) {
        if w0.paint is Idle {
            Some(GestureError::NoPaintSession)
        } else if packet.slot >= 0 && packet.slot as int >= len {
            Some(GestureError::OutOfBounds)
        } else {
            None
        }
    } else {
        // begin paint, in either direction
        if packet.slot >= 0 && packet.slot as int >= len {
            Some(GestureError::OutOfBounds)
        } else {
            None
        }
    }
}

/// The gesture failed only after its slot-independent operation had
/// already run: the named slot lay out of bounds when its contents were
/// looked up for the outbound messages.
pub open spec fn is_lookup_failure(w0: Window, packet: ClickWindow) -> bool {
    packet.mode == 5 && (packet.button == 0 || packet.button == 4 || ((packet.button == 2
        || packet.button == 6) && !(w0.paint is Idle))) && packet.slot >= 0 && packet.slot as int
        >= w0.slots@.len()
}


/// An unsupported (mode, button) pair names no gesture: against any
/// window it yields exactly the unrecognized-gesture error, and never the
/// post-operation lookup case, so by `handle_click_window`'s contract the
/// window stays untouched and no outbound message exists.
pub proof fn lemma_unsupported_gesture(w: Window, packet: ClickWindow)
    requires
        !supported_gesture(packet.mode, packet.button),
    ensures
        spec_gesture_error(w, packet) == Some(GestureError::UnrecognizedGesture),
        !is_lookup_failure(w, packet),
{
}

/// A signed inbound slot index as a storage index; negative indices name
/// no slot and are out of bounds.
fn slot_index(slot: i16) -> (r: Result<usize, GestureError>)
    ensures
        match r {
            Ok(s) => slot >= 0 && s == slot as usize,
            Err(e) => e == GestureError::OutOfBounds && slot < 0,
        },
{
    if slot < 0 {
        Err(GestureError::OutOfBounds)
    } else {
        Ok(slot as usize)
    }
}

impl Window {
    /// A copy of the full window contents, as the refresh message carries
    /// them.
    pub fn contents(&self) -> (r: Vec<Option<ItemStack>>)
        ensures
            r@ == self.slots@,
    {
        let mut out: Vec<Option<ItemStack>> = Vec::new();
        let mut i: usize = 0;
        while i < self.slots.len()
            invariant
                0 <= i <= self.slots@.len(),
                out@ == self.slots@.take(i as int),
            decreases self.slots@.len() - i,
        {
            out.push(self.slots[i]);
            proof {
                assert(out@ == self.slots@.take(i as int + 1));
            }
            i = i + 1;
        }
        proof {
            assert(self.slots@.take(self.slots@.len() as int) == self.slots@);
        }
        out
    }
}

/// Routes one click-window gesture to the window operation it names and,
/// on success, assembles the outbound messages in their fixed order: the
/// confirmation, the named slot's resulting contents when the gesture
/// named one, the cursor stack, and the full window contents; a drop
/// gesture over an occupied slot also raises the drop event. Any failure
/// suppresses all four messages.
pub fn handle_click_window(window: &mut Window, packet: ClickWindow, catalog: &ItemCatalog) -> (r:
    Result<ClickOutcome, GestureError>)
    requires
        old(window).wf(),
    ensures
        final(window).wf(),
        final(window).backing == old(window).backing,
        match r {
            Ok(outcome) => spec_gesture_error(*old(window), packet) is None && gesture_applied(
                *old(window),
                *final(window),
                packet,
                *catalog,
            ) && outcome.confirmation == (Confirmation {
                window_id: packet.window_id,
                action_number: packet.action_number,
                accepted: true,
            }) && outcome.cursor == final(window).cursor && outcome.window_items@ == final(window).slots@ && (packet.slot >= 0 ==> (packet.slot as int) < final(window).slots@.len()
                && outcome.slot_update == Some(
                (packet.slot, final(window).slots@[packet.slot as int]),
            )) && (packet.slot < 0 ==> outcome.slot_update is None) && (packet.mode == 4 ==> (match
                old(window).slots@[packet.slot as int] {
                Some(st) => outcome.drop == Some(DropItemEvent { item: st.item }),
                None => outcome.drop is None,
            })) && (packet.mode != 4 ==> outcome.drop is None),
            Err(e) => spec_gesture_error(*old(window), packet) == Some(e) && (if is_lookup_failure(
                *old(window),
                packet,
            ) {
                gesture_applied(*old(window), *final(window), packet, *catalog)
            } else {
                *final(window) == *old(window)
            }),
        },
{
    let mut drop_event: Option<DropItemEvent> = None;
    match (packet.mode, packet.button) {
        (0u8, 0u8) => {
            let slot = match slot_index(packet.slot) {
                Ok(s) => s,
                Err(e) => {
                    return Err(e);
                },
            };
            match window.left_click(slot, catalog) {
                Ok(()) => {},
                Err(e) => {
                    return Err(e);
                },
            }
        },
        (0u8, 1u8) => {
            let slot = match slot_index(packet.slot) {
                Ok(s) => s,
                Err(e) => {
                    return Err(e);
                },
            };
            match window.right_click(slot, catalog) {
                Ok(()) => {},
                Err(e) => {
                    return Err(e);
                },
            }
        },
        (0u8, _) => {
            return Err(GestureError::UnrecognizedGesture);
        },
        (1u8, _) => {
            let slot = match slot_index(packet.slot) {
                Ok(s) => s,
                Err(e) => {
                    return Err(e);
                },
            };
            match window.shift_click(slot, catalog) {
                Ok(()) => {},
                Err(e) => {
                    return Err(e);
                },
            }
        },
        (4u8, _) => {
            let slot = match slot_index(packet.slot) {
                Ok(s) => s,
                Err(e) => {
                    return Err(e);
                },
            };
            match window.drop_item(slot) {
                Ok(taken) => {
                    if let Some(st) = taken {
                        drop_event = Some(DropItemEvent::new(st.item));
                    }
                },
                Err(e) => {
                    return Err(e);
                },
            }
        },
        (5u8, 0u8) => {
            window.begin_left_mouse_paint();
        },
        (5u8, 4u8) => {
            window.begin_right_mouse_paint();
        },
        (5u8, 1u8) | (5u8, 5u8) => {
            let slot = match slot_index(packet.slot) {
                Ok(s) => s,
                Err(e) => {
                    return Err(e);
                },
            };
            match window.add_paint_slot(slot) {
                Ok(()) => {},
                Err(e) => {
                    return Err(e);
                },
            }
        },
        (5u8, 2u8) | (5u8, 6u8) => {
            match window.end_paint(catalog) {
                Ok(()) => {},
                Err(e) => {
                    return Err(e);
                },
            }
        },
        (_, _) => {
            return Err(GestureError::UnrecognizedGesture);
        },
    }
    let slot_update = if packet.slot >= 0 {
        match window.item(packet.slot as usize) {
            Ok(contents) => Some((packet.slot, contents)),
            Err(e) => {
                return Err(e);
            },
        }
    } else {
        None
    };
    let cursor = window.cursor_item();
    let window_items = window.contents();
    Ok(
        ClickOutcome {
            confirmation: Confirmation {
                window_id: packet.window_id,
                action_number: packet.action_number,
                accepted: true,
            },
            slot_update,
            cursor,
            window_items,
            drop: drop_event,
        },
    )
}

/// Applies a creative-set action: legal only in creative mode and, when a
/// slot is named, only against the entity's own personal-inventory window.
/// A slot of −1 is a no-op success, the held item being discarded.
pub fn handle_creative_inventory_action(
    gamemode: Gamemode,
    window: &mut Window,
    packet: CreativeInventoryAction,
) -> (r: Result<(), GestureError>)
    requires
        old(window).wf(),
    ensures
        final(window).wf(),
        final(window).backing == old(window).backing,
        final(window).cursor == old(window).cursor,
        final(window).paint == old(window).paint,
        match r {
            Ok(()) => gamemode == Gamemode::Creative && (if packet.slot == -1 {
                *final(window) == *old(window)
            } else {
                old(window).backing.is_player() && packet.slot >= 0 && (packet.slot as int)
                    < old(window).slots@.len() && final(window).slots@ == old(window).slots@.update(
                    packet.slot as int,
                    packet.clicked_item,
                )
            }),
            Err(e) => *final(window) == *old(window) && (if gamemode != Gamemode::Creative {
                e == GestureError::NotCreative
            } else if packet.slot == -1 {
                false
            } else if !old(window).backing.is_player() {
                e == GestureError::NotPlayerWindow
            } else {
                e == GestureError::OutOfBounds && (packet.slot < 0 || (packet.slot as int)
                    >= old(window).slots@.len())
            }),
        },
{
    if gamemode != Gamemode::Creative {
        return Err(GestureError::NotCreative);
    }
    if packet.slot != -1 {
        if !(matches!(window.backing, BackingWindow::Player { .. })) {
            return Err(GestureError::NotPlayerWindow);
        }
        let slot = match slot_index(packet.slot) {
            Ok(s) => s,
            Err(e) => {
                return Err(e);
            },
        };
        match window.set_item(slot, packet.clicked_item) {
            Ok(()) => {},
            Err(e) => {
                return Err(e);
            },
        }
    }
    Ok(())
}

} // verus!
