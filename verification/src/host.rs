//! The toolkit values that the widgets' decisions are made on.
//!
//! Everything in this module faces `iced_core`. Its types are carried through
//! the library as opaque values; what the library needs to know of them it
//! learns by calling the toolkit, and each such call is named here so that
//! contracts elsewhere can speak of its result.

use iced_core::keyboard;
use iced_core::mouse;
use iced_core::mouse::Cursor;
use iced_core::touch;
use iced_core::window;
use iced_core::{Event, Layout, Rectangle};
use vstd::prelude::*;

verus! {

/// `iced_core::mouse::Cursor`, opaque to the verifier.
#[verifier::external_type_specification]
#[verifier::external_body]
pub struct ExCursor(iced_core::mouse::Cursor);

/// `iced_core::Rectangle`, opaque to the verifier.
#[verifier::external_type_specification]
#[verifier::external_body]
#[verifier::reject_recursive_types(T)]
pub struct ExRectangle<T>(iced_core::Rectangle<T>);

/// `iced_core::Layout`, opaque to the verifier.
#[verifier::external_type_specification]
#[verifier::external_body]
pub struct ExLayout<'a>(iced_core::Layout<'a>);

/// `iced_core::Event`, opaque to the verifier.
#[verifier::external_type_specification]
#[verifier::external_body]
pub struct ExEvent(iced_core::Event);

/// `iced_core::Pixels`, opaque to the verifier.
#[verifier::external_type_specification]
#[verifier::external_body]
pub struct ExPixels(iced_core::Pixels);

/// `iced_core::Length`, opaque to the verifier.
#[verifier::external_type_specification]
#[verifier::external_body]
pub struct ExLength(iced_core::Length);

/// `iced_core::text::LineHeight`, opaque to the verifier.
#[verifier::external_type_specification]
#[verifier::external_body]
pub struct ExLineHeight(iced_core::text::LineHeight);

/// `iced_core::text::Shaping`, opaque to the verifier.
#[verifier::external_type_specification]
#[verifier::external_body]
pub struct ExShaping(iced_core::text::Shaping);

/// What a toolkit event means to the widgets of this library.
#[derive(Debug, Clone, Copy, PartialEq, Eq, Structural)]
pub enum Input {
    /// The left mouse button went down.
    LeftPressed,
    /// A finger touched the screen.
    FingerPressed,
    /// The mouse cursor moved.
    CursorMoved,
    /// The keyboard modifiers changed; the payload is their bit set.
    ModifiersChanged(u32),
    /// The window is about to be redrawn.
    RedrawRequested,
    /// Any other event.
    Other,
}

impl Input {
    /// A press is a left click or a touch.
    pub open spec fn is_press(self) -> bool {
        self is LeftPressed || self is FingerPressed
    }
}

/// The result of `iced_core::mouse::Cursor::is_over`: whether the cursor has
/// a position on this layer and that position lies within `bounds`.
pub uninterp spec fn cursor_over(cursor: Cursor, bounds: Rectangle) -> bool;

/// The result of `iced_core::Layout::bounds`: the rectangle, in absolute
/// coordinates, that a layout occupies.
pub uninterp spec fn layout_bounds(layout: Layout) -> Rectangle;

/// The [`Input`] that [`classify`] reads out of an event.
pub uninterp spec fn event_input(event: Event) -> Input;

/// Calls `iced_core::mouse::Cursor::is_over`.
///
/// Trusted: the result is the named value [`cursor_over`] of the two
/// arguments, that is, the call depends on nothing else.
#[verifier::external_body]
pub(crate) fn is_over(cursor: Cursor, bounds: Rectangle) -> (over: bool)
    ensures
        over == cursor_over(cursor, bounds),
{
    cursor.is_over(bounds)
}

/// Calls `iced_core::Layout::bounds`.
///
/// Trusted: the result is the named value [`layout_bounds`] of the layout.
#[verifier::external_body]
pub(crate) fn bounds_of(layout: Layout<'_>) -> (bounds: Rectangle)
    ensures
        bounds == layout_bounds(layout),
{
    layout.bounds()
}

/// Tells the variants of `iced_core::Event` apart, keeping the five that the
/// widgets react to and the bit set of a modifier change
/// (`iced_core::keyboard::Modifiers::bits`).
///
/// Trusted: the result is the named value [`event_input`] of the event.
#[verifier::external_body]
pub(crate) fn classify(event: &Event) -> (input: Input)
    ensures
        input == event_input(*event),
{
    match event {
        Event::Mouse(mouse::Event::ButtonPressed(mouse::Button::Left)) => Input::LeftPressed,
        Event::Touch(touch::Event::FingerPressed { .. }) => Input::FingerPressed,
        Event::Mouse(mouse::Event::CursorMoved { .. }) => Input::CursorMoved,
        Event::Keyboard(keyboard::Event::ModifiersChanged(m)) => Input::ModifiersChanged(m.bits()),
        Event::Window(window::Event::RedrawRequested(_)) => Input::RedrawRequested,
        _ => Input::Other,
    }
}

/// Whether the cursor is over the area that `layout` occupies.
pub fn hovers(layout: Layout<'_>, cursor: Cursor) -> (over: bool)
    ensures
        over == cursor_over(cursor, layout_bounds(layout)),
{
    is_over(cursor, bounds_of(layout))
}

} // verus!
