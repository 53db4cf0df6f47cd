//! The menu of a pick list: a column of rows, one per option, each with a
//! check box that shows whether the option is selected.

use crate::host::{classify, cursor_over, event_input, hovers, layout_bounds, Input};
use iced_core::mouse::Cursor;
use iced_core::{Event, Layout};
use vstd::prelude::*;
use vstd::std_specs::cmp::PartialEqSpec;

verus! {

/// What the list of a menu remembers between events.
#[derive(Debug, Clone, Copy, PartialEq, Eq, Structural)]
pub struct ListState {
    /// Whether the cursor was over the list when it was last drawn.
    pub is_hovered: Option<bool>,
}

/// What the list of a menu asks of the shell after an event.
#[derive(Debug, Clone, Copy, PartialEq, Eq, Structural)]
pub struct Reaction {
    /// The option that was picked, to be announced as selected.
    pub select: Option<usize>,
    /// The option that the cursor newly came to rest on, to be announced as
    /// hovered where the menu was asked to announce that.
    pub hover: Option<usize>,
    /// Whether the event is captured, so that no ancestor handles it.
    pub capture: bool,
    /// Whether a redraw is requested.
    pub redraw: bool,
}

/// The row, if it is one of `len` options.
pub open spec fn option_at(row: Option<usize>, len: usize) -> Option<usize> {
    match row {
        Some(index) if index < len => Some(index),
        _ => None,
    }
}

/// The hovered row after an event: a cursor move or a touch over the list
/// puts it at the row under the cursor, whether or not an option is there.
pub open spec fn hovered_after(hovered: Option<usize>, input: Input, row: Option<usize>) -> Option<
    usize,
> {
    if (input is CursorMoved || input is FingerPressed) && row is Some {
        row
    } else {
        hovered
    }
}

/// The option that an event picks: a left click over the list picks the
/// hovered option, a touch picks the option under the finger.
pub open spec fn picked(
    hovered: Option<usize>,
    input: Input,
    over: bool,
    row: Option<usize>,
    len: usize,
) -> Option<usize> {
    match input {
        Input::LeftPressed => if over {
            option_at(hovered, len)
        } else {
            None
        },
        Input::FingerPressed => option_at(row, len),
        _ => None,
    }
}

/// The option that a cursor move newly hovers: the one under the cursor,
/// unless the hovered row was there already.
pub open spec fn entered(hovered: Option<usize>, input: Input, row: Option<usize>, len: usize) -> Option<
    usize,
> {
    if input is CursorMoved && hovered != row {
        option_at(row, len)
    } else {
        None
    }
}

/// Whether the list looks out of date after an event: it does when the
/// event is no redraw and the cursor has entered or left the list since it
/// was last drawn.
pub open spec fn outdated(drawn: Option<bool>, input: Input, over: bool) -> bool {
    !(input is RedrawRequested) && (drawn matches Some(was_over) && was_over != over)
}

/// What the list asks of the shell for an event, given the hovered row and
/// the remembered state before the event.
pub open spec fn reaction_to(
    hovered: Option<usize>,
    list: ListState,
    input: Input,
    over: bool,
    row: Option<usize>,
    len: usize,
) -> Reaction {
    Reaction {
        select: picked(hovered, input, over, row, len),
        hover: entered(hovered, input, row, len),
        capture: picked(hovered, input, over, row, len) is Some,
        redraw: entered(hovered, input, row, len) is Some || outdated(list.is_hovered, input, over),
    }
}

/// What the list remembers after an event: on a redraw, whether the cursor
/// is over it.
pub open spec fn list_after(list: ListState, input: Input, over: bool) -> ListState {
    if input is RedrawRequested {
        ListState { is_hovered: Some(over) }
    } else {
        list
    }
}

/// Applies an event to the list of a menu with `len` options.
///
/// `over` says whether the cursor is over the list, and `row` is the row at
/// the height of the cursor, if the cursor is over the list.
pub fn react(
    hovered_option: &mut Option<usize>,
    list: &mut ListState,
    input: Input,
    over: bool,
    row: Option<usize>,
    len: usize,
) -> (reaction: Reaction)
    ensures
        *final(hovered_option) == hovered_after(*old(hovered_option), input, row),
        *final(list) == list_after(*old(list), input, over),
        reaction == reaction_to(*old(hovered_option), *old(list), input, over, row, len),
        reaction.select matches Some(index) ==> index < len,
        reaction.hover matches Some(index) ==> index < len,
{
    let mut select: Option<usize> = None;
    let mut hover: Option<usize> = None;
    match input {
        Input::LeftPressed => {
            if over {
                if let Some(index) = *hovered_option {
                    if index < len {
                        select = Some(index);
                    }
                }
            }
        },
        Input::CursorMoved => {
            if let Some(index) = row {
                let moved = match *hovered_option {
                    Some(before) => before != index,
                    None => true,
                };
                if moved && index < len {
                    hover = Some(index);
                }
                *hovered_option = Some(index);
            }
        },
        Input::FingerPressed => {
            if let Some(index) = row {
                *hovered_option = Some(index);
                if index < len {
                    select = Some(index);
                }
            }
        },
        _ => {},
    }
    let mut redraw = hover.is_some();
    match input {
        Input::RedrawRequested => {
            list.is_hovered = Some(over);
        },
        _ => {
            if let Some(was_over) = list.is_hovered {
                if was_over != over {
                    redraw = true;
                }
            }
        },
    }
    Reaction { select, hover, capture: select.is_some(), redraw }
}

/// Applies a toolkit event to the list of a menu laid out at `layout`, with
/// the cursor at `cursor`: [`react`] on what the event means and on whether
/// the cursor is over the layout.
///
/// `row` is the row at the height of the cursor, if the cursor is over the
/// list; the caller measures it.
pub fn update(
    hovered_option: &mut Option<usize>,
    list: &mut ListState,
    event: &Event,
    layout: Layout<'_>,
    cursor: Cursor,
    row: Option<usize>,
    len: usize,
) -> (reaction: Reaction)
    ensures
        *final(hovered_option) == hovered_after(*old(hovered_option), event_input(*event), row),
        *final(list) == list_after(
            *old(list),
            event_input(*event),
            cursor_over(cursor, layout_bounds(layout)),
        ),
        reaction == reaction_to(
            *old(hovered_option),
            *old(list),
            event_input(*event),
            cursor_over(cursor, layout_bounds(layout)),
            row,
            len,
        ),
        reaction.select matches Some(index) ==> index < len,
        reaction.hover matches Some(index) ==> index < len,
{
    let input = classify(event);
    let over = hovers(layout, cursor);
    react(hovered_option, list, input, over, row, len)
}

/// Whether some item of `items` equals `item`, by the items' own equality.
pub open spec fn holds<T: PartialEq>(items: Seq<T>, item: T) -> bool {
    exists|j: int| 0 <= j < items.len() && #[trigger] items[j].eq_spec(&item)
}

/// Looks for `item` among `items`.
pub fn contains<T: PartialEq>(items: &[T], item: &T) -> (found: bool)
    ensures
        T::obeys_eq_spec() ==> found == holds(items@, *item),
{
    let mut j: usize = 0;
    while j < items.len()
        invariant
            j <= items.len(),
            T::obeys_eq_spec() ==> forall|k: int| 0 <= k < j ==> !(#[trigger] items@[k].eq_spec(item)),
        decreases items.len() - j,
    {
        if items[j] == *item {
            return true;
        }
        j += 1;
    }
    false
}

/// How one visible row of the list is drawn.
#[derive(Debug, Clone, Copy, PartialEq, Eq, Structural)]
pub struct Row {
    /// The index of the option in this row.
    pub index: usize,
    /// Whether the option is among the selected ones: its box is checked.
    pub is_selected: bool,
    /// Whether this is the hovered row: it is drawn highlighted.
    pub is_hovered: bool,
}

/// The index after the last visible row: rows up to `end` are in view, but
/// there are only `len` options.
pub open spec fn visible_end(end: usize, len: usize) -> usize {
    if end < len {
        end
    } else {
        len
    }
}

/// The rows of the list that are in view, first to last, each with its
/// marks. The window of rows in view is `start..end`, cut off at the number
/// of options; it must not start beyond its own end.
pub fn visible_rows<T: PartialEq>(
    options: &[T],
    selected: &[T],
    hovered_option: Option<usize>,
    start: usize,
    end: usize,
) -> (rows: Vec<Row>)
    requires
        start <= visible_end(end, options@.len() as usize),
    ensures
        rows@.len() == visible_end(end, options@.len() as usize) - start,
        forall|k: int|
            0 <= k < rows@.len() ==> {
                &&& (#[trigger] rows@[k]).index == start + k
                &&& rows@[k].is_hovered == (hovered_option == Some((start + k) as usize))
                &&& T::obeys_eq_spec() ==> rows@[k].is_selected == holds(
                    selected@,
                    options@[start + k],
                )
            },
{
    let stop = if end < options.len() {
        end
    } else {
        options.len()
    };
    let mut rows: Vec<Row> = Vec::new();
    let mut index = start;
    while index < stop
        invariant
            start <= index <= stop,
            stop == visible_end(end, options@.len() as usize),
            stop <= options@.len(),
            rows@.len() == index - start,
            forall|k: int|
                0 <= k < rows@.len() ==> {
                    &&& (#[trigger] rows@[k]).index == start + k
                    &&& rows@[k].is_hovered == (hovered_option == Some((start + k) as usize))
                    &&& T::obeys_eq_spec() ==> rows@[k].is_selected == holds(
                        selected@,
                        options@[start + k],
                    )
                },
        decreases stop - index,
    {
        let is_selected = contains(selected, &options[index]);
        let is_hovered = match hovered_option {
            Some(hovered) => hovered == index,
            None => false,
        };
        rows.push(Row { index, is_selected, is_hovered });
        index += 1;
    }
    rows
}

} // verus!
