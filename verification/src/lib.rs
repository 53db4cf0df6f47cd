//! Decision logic for a set of toolkit widgets: a multi-select pick list,
//! a progress bar and a square radio button.
//!
//! The widgets themselves are drawn and laid out by the host toolkit. What
//! this library holds is what each widget decides: how an event changes its
//! state, what it asks of the shell in return, and which of its parts are
//! shown.

pub mod host;
pub mod multi_pick_list;
pub mod progress_bar_ext;
pub mod square_radio;
