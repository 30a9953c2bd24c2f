use vstd::prelude::*;
use crate::geometry::Size;

verus! {

/// A pointer position, in the same whole-pixel space as layouts, relative to
/// the top-left corner of the region an event is delivered to.
#[derive(Clone, Copy, Debug, PartialEq, Eq, Structural)]
pub struct Cursor {
    pub x: u64,
    pub y: u64,
}

/// Whether the cursor lies inside a region of the given size (regions are
/// anchored at the origin of the cursor's coordinate space).
pub open spec fn spec_cursor_inside(cursor: Cursor, size: Size) -> bool {
    cursor.x < size.width && cursor.y < size.height
}

pub fn cursor_inside(cursor: &Cursor, size: &Size) -> (r: bool)
    ensures
        r == spec_cursor_inside(*cursor, *size),
{
    cursor.x < size.width && cursor.y < size.height
}

/// One incoming input event, dispatched top-down through the widget tree.
#[derive(Clone, Copy, Debug, PartialEq, Eq, Structural)]
pub enum Event {
    /// The primary pointer button went down at the current cursor position.
    PointerPressed,
    /// A character was typed on the keyboard.
    CharacterTyped(char),
    /// Any other input event; no widget in this library reacts to it.
    Other,
}

/// What a widget reports back from handling one event.
#[derive(Clone, Copy, Debug, PartialEq, Eq, Structural)]
pub enum EventStatus {
    /// The event was consumed by this widget (or one of its descendants).
    Captured,
    /// The event was not consumed.
    Ignored,
}

/// The pointer interaction hint a widget advertises for the current cursor.
#[derive(Clone, Copy, Debug, PartialEq, Eq, Structural)]
pub enum Interaction {
    /// Nothing special under the pointer.
    Idle,
    /// The pointer hovers editable text.
    Text,
}

/// A generic tree operation, walked through the whole widget tree without
/// the tree being aware of decorators in between.
#[derive(Clone, Copy, Debug, PartialEq, Eq, Structural)]
pub enum Operation {
    /// Ask the widget carrying this identifier to grab input focus, and
    /// every other focusable widget to release it.
    Focus(u64),
}

/// One rendering primitive; a draw pass yields the primitives of the whole
/// tree in drawing order.
#[derive(Clone, Copy, Debug, PartialEq, Eq, Structural)]
pub enum Primitive {
    /// A run of plain text filling the given region.
    Text { size: Size },
    /// A text-entry box filling the given region, drawn focused or not.
    TextInput { size: Size, focused: bool },
}

/// The outgoing notification channel: widgets append application messages to
/// it while handling an event, and the host drains it once per event cycle.
pub struct Shell<M> {
    pub messages: Vec<M>,
}

impl<M> Shell<M> {
    /// A channel with nothing queued.
    pub fn new() -> (r: Shell<M>)
        ensures
            r.messages@ == Seq::<M>::empty(),
    {
        Shell { messages: Vec::new() }
    }

    /// Append one message; everything already queued stays, in order.
    pub fn publish(&mut self, message: M)
        ensures
            final(self).messages@ == old(self).messages@.push(message),
    {
        self.messages.push(message);
    }
}

} // verus!
