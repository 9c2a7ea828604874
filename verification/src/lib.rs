//! Selection-and-viewport controller for an autocomplete popup, together with
//! the note model it completes over.
//!
//! The heart of the crate is a state machine that reconciles keyboard
//! navigation, pointer interaction and scroll-position changes into one
//! consistent highlighted or committed selection per redraw cycle, while the
//! candidate list may shrink, grow or reorder between cycles.  The controller
//! is a pure function of the persisted per-field state and the cycle's inputs;
//! the surrounding UI only performs the effects it requests.

pub mod popup;
pub mod reconcile;
pub mod scroll;
pub mod selection;
pub mod snote;
pub mod snotter;
pub mod store;

pub use selection::AutocompleteOutput;
pub use selection::Selection;
