//! A pick list in which several options can be selected at once.
//!
//! The field opens a menu on a press and closes it on the next press that
//! the menu did not take for itself.

pub mod menu;

use crate::host::{classify, cursor_over, event_input, hovers, layout_bounds, Input};
use iced_core::mouse::Cursor;
use iced_core::text::{LineHeight, Shaping};
use iced_core::{Event, Layout, Pixels};
use vstd::prelude::*;

verus! {

/// The possible status of a pick list.
#[derive(Debug, Clone, Copy, PartialEq, Eq, Structural)]
pub enum Status {
    /// The pick list can be interacted with.
    Active,
    /// The pick list is being hovered.
    Hovered,
    /// The pick list is open.
    Opened {
        /// Whether the pick list is hovered, while open.
        is_hovered: bool,
    },
}

impl Status {
    /// The status of a pick list that is open or closed, hovered or not.
    pub open spec fn of(is_open: bool, is_hovered: bool) -> Status {
        if is_open {
            Status::Opened { is_hovered }
        } else if is_hovered {
            Status::Hovered
        } else {
            Status::Active
        }
    }

    /// Computes the status of a pick list from its state and the cursor.
    pub fn current(is_open: bool, is_hovered: bool) -> (status: Status)
        ensures
            status == Status::of(is_open, is_hovered),
    {
        if is_open {
            Status::Opened { is_hovered }
        } else if is_hovered {
            Status::Hovered
        } else {
            Status::Active
        }
    }

    /// The status that the field is drawn with: the one recorded last, or
    /// active where none was recorded.
    pub fn drawn(last_status: Option<Status>) -> (status: Status)
        ensures
            status == match last_status {
                Some(recorded) => recorded,
                None => Status::Active,
            },
    {
        match last_status {
            Some(recorded) => recorded,
            None => Status::Active,
        }
    }

    /// Whether the field is drawn with an accented border: it is whenever
    /// the pick list is hovered or open.
    pub fn is_accented(self) -> (accented: bool)
        ensures
            accented == !(self is Active),
    {
        match self {
            Status::Active => false,
            Status::Hovered => true,
            Status::Opened { .. } => true,
        }
    }
}

/// The state that a pick list keeps between events.
#[derive(Debug, Clone, Copy, PartialEq, Eq, Structural)]
pub struct State {
    /// Whether the menu is shown.
    pub is_open: bool,
    /// The row of the menu that the cursor was last over.
    pub hovered_option: Option<usize>,
    /// The bit set of the keyboard modifiers last reported.
    pub keyboard_modifiers: u32,
}

/// What a pick list asks of the shell after an event.
pub struct Reaction<'a, Message> {
    /// The message to publish, if any.
    pub publish: Option<&'a Message>,
    /// Whether the event is captured, so that no ancestor handles it.
    pub capture: bool,
    /// Whether a redraw is requested.
    pub redraw: bool,
}

/// The message that a configured slot holds, borrowed.
pub open spec fn held<'a, Message>(slot: &'a Option<Message>) -> Option<&'a Message> {
    match slot {
        Some(message) => Some(message),
        None => None,
    }
}

impl State {
    /// A closed pick list has no hovered row.
    pub open spec fn wf(self) -> bool {
        !self.is_open ==> self.hovered_option is None
    }

    /// The state after an event: a press closes an open list and forgets
    /// the hovered row, or opens a closed list that the cursor is over; a
    /// modifier change is recorded; nothing else changes the state.
    pub open spec fn after(self, input: Input, is_hovered: bool) -> State {
        match input {
            Input::LeftPressed | Input::FingerPressed => {
                if self.is_open {
                    State { is_open: false, hovered_option: None, ..self }
                } else if is_hovered {
                    State { is_open: true, ..self }
                } else {
                    self
                }
            },
            Input::ModifiersChanged(bits) => State { keyboard_modifiers: bits, ..self },
            _ => self,
        }
    }

    /// Whether an event toggles the list: a press does, on an open list
    /// anywhere and on a closed one where the cursor is over it.
    pub open spec fn toggled_by(self, input: Input, is_hovered: bool) -> bool {
        input.is_press() && (self.is_open || is_hovered)
    }

    /// Creates the state of a pick list that was just mounted: closed, with
    /// no hovered row and no modifiers held.
    pub fn new() -> (state: State)
        ensures
            state == (State { is_open: false, hovered_option: None, keyboard_modifiers: 0 }),
            state.wf(),
    {
        State { is_open: false, hovered_option: None, keyboard_modifiers: 0 }
    }
}

impl Default for State {
    fn default() -> (state: State)
        ensures
            state == (State { is_open: false, hovered_option: None, keyboard_modifiers: 0 }),
    {
        State::new()
    }
}

/// The status that is remembered after an event: the current one when the
/// event is a redraw, the one remembered before otherwise.
pub open spec fn remembered(last: Option<Status>, input: Input, status: Status) -> Option<Status> {
    if input is RedrawRequested {
        Some(status)
    } else {
        last
    }
}

/// Whether an event leaves the field looking out of date: it does when it
/// is no redraw and the status differs from the one last drawn.
pub open spec fn outdated(last: Option<Status>, input: Input, status: Status) -> bool {
    !(input is RedrawRequested) && (last matches Some(drawn) && drawn != status)
}

/// What a pick list asks of the shell for an event, given its state before
/// the event: a toggling press is captured and announced with the message
/// for closing or opening, where one is configured; a redraw is requested
/// when the field looks out of date.
pub open spec fn reaction_to<'a, Message>(
    state: State,
    last: Option<Status>,
    input: Input,
    is_hovered: bool,
    on_open: &'a Option<Message>,
    on_close: &'a Option<Message>,
) -> Reaction<'a, Message> {
    Reaction {
        publish: if !state.toggled_by(input, is_hovered) {
            None
        } else if state.is_open {
            held(on_close)
        } else {
            held(on_open)
        },
        capture: state.toggled_by(input, is_hovered),
        redraw: outdated(
            last,
            input,
            Status::of(state.after(input, is_hovered).is_open, is_hovered),
        ),
    }
}

/// Applies an event to a pick list.
///
/// `is_hovered` says whether the cursor is over the field. `last_status` is
/// the status that the field was last drawn with; `on_open` and `on_close`
/// are the messages configured for the two transitions.
pub fn react<'a, Message>(
    state: &mut State,
    last_status: &mut Option<Status>,
    input: Input,
    is_hovered: bool,
    on_open: &'a Option<Message>,
    on_close: &'a Option<Message>,
) -> (reaction: Reaction<'a, Message>)
    ensures
        *final(state) == old(state).after(input, is_hovered),
        *final(last_status) == remembered(
            *old(last_status),
            input,
            Status::of(final(state).is_open, is_hovered),
        ),
        reaction == reaction_to(
            *old(state),
            *old(last_status),
            input,
            is_hovered,
            on_open,
            on_close,
        ),
        old(state).wf() ==> final(state).wf(),
{
    let mut publish: Option<&'a Message> = None;
    let mut capture = false;
    match input {
        Input::LeftPressed | Input::FingerPressed => {
            if state.is_open {
                state.is_open = false;
                state.hovered_option = None;
                publish = on_close.as_ref();
                capture = true;
            } else if is_hovered {
                state.is_open = true;
                publish = on_open.as_ref();
                capture = true;
            }
        },
        Input::ModifiersChanged(bits) => {
            state.keyboard_modifiers = bits;
        },
        _ => {},
    }
    let status = Status::current(state.is_open, is_hovered);
    let mut redraw = false;
    match input {
        Input::RedrawRequested => {
            *last_status = Some(status);
        },
        _ => {
            if let Some(drawn) = *last_status {
                redraw = drawn != status;
            }
        },
    }
    Reaction { publish, capture, redraw }
}

/// Applies a toolkit event to a pick list laid out at `layout`, with the
/// cursor at `cursor`: [`react`] on what the event means and on whether the
/// cursor is over the layout.
pub fn update<'a, Message>(
    state: &mut State,
    last_status: &mut Option<Status>,
    event: &Event,
    layout: Layout<'_>,
    cursor: Cursor,
    on_open: &'a Option<Message>,
    on_close: &'a Option<Message>,
) -> (reaction: Reaction<'a, Message>)
    ensures
        *final(state) == old(state).after(
            event_input(*event),
            cursor_over(cursor, layout_bounds(layout)),
        ),
        *final(last_status) == remembered(
            *old(last_status),
            event_input(*event),
            Status::of(final(state).is_open, cursor_over(cursor, layout_bounds(layout))),
        ),
        reaction == reaction_to(
            *old(state),
            *old(last_status),
            event_input(*event),
            cursor_over(cursor, layout_bounds(layout)),
            on_open,
            on_close,
        ),
        old(state).wf() ==> final(state).wf(),
{
    let input = classify(event);
    let is_hovered = hovers(layout, cursor);
    react(state, last_status, input, is_hovered, on_open, on_close)
}

/// The icon of a [`Handle`].
#[derive(Debug, PartialEq)]
pub struct Icon<Font> {
    /// Font that will be used to display the `code_point`,
    pub font: Font,
    /// The unicode code point that will be used as the icon.
    pub code_point: char,
    /// Font size of the content.
    pub size: Option<Pixels>,
    /// Line height of the content.
    pub line_height: LineHeight,
    /// The shaping strategy of the icon.
    pub shaping: Shaping,
}

impl<Font: Clone> Icon<Font> {
    /// Whether this icon is a copy of `source`: the same in every field,
    /// with a font that `source`'s font may clone to.
    pub open spec fn copies(self, source: Icon<Font>) -> bool {
        &&& cloned(source.font, self.font)
        &&& self.code_point == source.code_point
        &&& self.size == source.size
        &&& self.line_height == source.line_height
        &&& self.shaping == source.shaping
    }
}

impl<Font: Clone> Clone for Icon<Font> {
    /// Copies the icon; only the font is cloned through its own `clone`.
    fn clone(&self) -> (icon: Self)
        ensures
            icon.copies(*self),
    {
        Icon {
            font: self.font.clone(),
            code_point: self.code_point,
            size: self.size,
            line_height: self.line_height,
            shaping: self.shaping,
        }
    }
}

/// The handle to the right side of the pick list.
#[derive(Debug, PartialEq)]
pub enum Handle<Font> {
    /// Displays an arrow icon.
    ///
    /// This is the default.
    Arrow {
        /// Font size of the content.
        size: Option<Pixels>,
    },
    /// A custom static handle.
    Static(Icon<Font>),
    /// A custom dynamic handle.
    Dynamic {
        /// The [`Icon`] used when the pick list is closed.
        closed: Icon<Font>,
        /// The [`Icon`] used when the pick list is open.
        open: Icon<Font>,
    },
    /// No handle will be shown.
    Hidden,
}

/// What is drawn as the handle of a pick list.
pub enum Glyph<'a, Font> {
    /// The renderer's own arrow, at the given size.
    Arrow {
        /// Font size of the arrow.
        size: Option<Pixels>,
    },
    /// An icon that the handle was configured with.
    Custom(&'a Icon<Font>),
}

impl<Font> Handle<Font> {
    /// The glyph that a handle shows on an open or a closed pick list.
    pub open spec fn glyph_of(&self, is_open: bool) -> Option<Glyph<'_, Font>> {
        match self {
            Handle::Arrow { size } => Some(Glyph::Arrow { size: *size }),
            Handle::Static(icon) => Some(Glyph::Custom(icon)),
            Handle::Dynamic { closed, open } => Some(
                Glyph::Custom(
                    if is_open {
                        open
                    } else {
                        closed
                    },
                ),
            ),
            Handle::Hidden => None,
        }
    }

    /// Picks the glyph to draw for this handle.
    pub fn glyph(&self, is_open: bool) -> (glyph: Option<Glyph<'_, Font>>)
        ensures
            glyph == self.glyph_of(is_open),
    {
        match self {
            Handle::Arrow { size } => Some(Glyph::Arrow { size: *size }),
            Handle::Static(icon) => Some(Glyph::Custom(icon)),
            Handle::Dynamic { closed, open } => {
                if is_open {
                    Some(Glyph::Custom(open))
                } else {
                    Some(Glyph::Custom(closed))
                }
            },
            Handle::Hidden => None,
        }
    }
}

impl<Font: Clone> Clone for Handle<Font> {
    /// Copies the handle, keeping its variant.
    fn clone(&self) -> (handle: Self)
        ensures
            match *self {
                Handle::Arrow { size } => handle == (Handle::<Font>::Arrow { size }),
                Handle::Static(icon) => handle matches Handle::Static(copy) && copy.copies(icon),
                Handle::Dynamic { closed, open } => handle matches Handle::Dynamic {
                    closed: closed_copy,
                    open: open_copy,
                } && closed_copy.copies(closed) && open_copy.copies(open),
                Handle::Hidden => handle is Hidden,
            },
    {
        match self {
            Handle::Arrow { size } => Handle::Arrow { size: *size },
            Handle::Static(icon) => Handle::Static(icon.clone()),
            Handle::Dynamic { closed, open } => Handle::Dynamic {
                closed: closed.clone(),
                open: open.clone(),
            },
            Handle::Hidden => Handle::Hidden,
        }
    }
}

impl<Font> Default for Handle<Font> {
    fn default() -> (handle: Self)
        ensures
            handle == (Handle::<Font>::Arrow { size: None }),
    {
        Handle::Arrow { size: None }
    }
}

} // verus!
