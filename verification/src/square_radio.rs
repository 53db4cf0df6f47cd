//! A radio button drawn as a square box that holds a check mark while its
//! value is the selected one.

use crate::host::{classify, cursor_over, event_input, hovers, layout_bounds, Input};
use iced_core::mouse::Cursor;
use iced_core::{Event, Layout};
use vstd::prelude::*;
use vstd::std_specs::cmp::PartialEqSpec;

verus! {

/// The possible status of a radio button.
#[derive(Debug, Clone, Copy, PartialEq, Eq, Structural)]
pub enum Status {
    /// The button can be interacted with.
    Active {
        /// Whether the button's value is the selected one.
        is_selected: bool,
    },
    /// The button is being hovered.
    Hovered {
        /// Whether the button's value is the selected one.
        is_selected: bool,
    },
}

/// How the box of a radio button is filled.
#[derive(Debug, Clone, Copy, PartialEq, Eq, Structural)]
pub enum Fill {
    /// Not at all: what lies behind the box shows through.
    Clear,
    /// With the weak background colour.
    Weak,
    /// With the strong background colour.
    Strong,
}

impl Status {
    /// The fill of the box: none while the button is merely active, and a
    /// background colour while it is hovered, the strong one if selected.
    pub fn fill(self) -> (fill: Fill)
        ensures
            fill == match self {
                Status::Active { .. } => Fill::Clear,
                Status::Hovered { is_selected: false } => Fill::Weak,
                Status::Hovered { is_selected: true } => Fill::Strong,
            },
    {
        match self {
            Status::Active { .. } => Fill::Clear,
            Status::Hovered { is_selected } => {
                if is_selected {
                    Fill::Strong
                } else {
                    Fill::Weak
                }
            },
        }
    }

    /// Whether the border of the box is accented: it is while a selected
    /// button is hovered.
    pub fn is_accented(self) -> (accented: bool)
        ensures
            accented == (self matches Status::Hovered { is_selected: true }),
    {
        match self {
            Status::Active { .. } => false,
            Status::Hovered { is_selected } => is_selected,
        }
    }

    /// The status that a button is drawn with: the one recorded last, or,
    /// where none was recorded, active with the button's own selection.
    pub fn drawn(last_status: Option<Status>, is_selected: bool) -> (status: Status)
        ensures
            status == match last_status {
                Some(recorded) => recorded,
                None => Status::Active { is_selected },
            },
    {
        match last_status {
            Some(recorded) => recorded,
            None => Status::Active { is_selected },
        }
    }
}

/// Whether `value` is the selected one: there is a selection, and the value
/// equals it.
pub open spec fn selects<V: PartialEq>(value: V, selection: Option<V>) -> bool {
    selection matches Some(chosen) && value.eq_spec(&chosen)
}

/// Decides whether the button of `value` is the selected one of its group.
pub fn is_selected<V: Eq + Copy>(value: V, selection: Option<V>) -> (selected: bool)
    ensures
        V::obeys_eq_spec() ==> selected == selects(value, selection),
        selection is None ==> !selected,
{
    match selection {
        Some(chosen) => value == chosen,
        None => false,
    }
}

/// Whether an event clicks the button: a press of the left mouse button
/// does, while the cursor is over the button.
pub fn clicks(input: Input, over: bool) -> (clicked: bool)
    ensures
        clicked == (input is LeftPressed && over),
{
    match input {
        Input::LeftPressed => over,
        _ => false,
    }
}

/// Applies a toolkit event to a radio button laid out at `layout`, with the
/// cursor at `cursor`. Where the result is `true`, the button's message is
/// to be published and the event captured.
pub fn update(event: &Event, layout: Layout<'_>, cursor: Cursor) -> (clicked: bool)
    ensures
        clicked == (event_input(*event) is LeftPressed && cursor_over(
            cursor,
            layout_bounds(layout),
        )),
{
    let input = classify(event);
    let over = hovers(layout, cursor);
    clicks(input, over)
}

} // verus!
