//! The core of a drag-and-drop list-reordering widget for an immediate-mode
//! GUI: a per-frame drag tracker and the list arithmetic it feeds.
//!
//! Each frame, the toolkit-facing layer reduces its pointer input and item
//! layout to plain values ([`state::PointerEvent`], [`state::ItemExtent`])
//! and hands them to [`state::step`], which carries the drag state across
//! frames and, when a drag finishes, emits a single move instruction
//! ([`state::DragUpdate`]). Applying that move ([`utils::shift_vec`]) keeps
//! every other element in its relative order, which is proved in
//! [`utils::lemma_apply_move_preserves_rest`].

use vstd::prelude::*;

pub mod state;
pub mod utils;

verus! {

/// Per-frame state of one list entry, handed to the caller's item callback.
pub struct ItemState {
    /// True if the item is currently being dragged.
    pub dragged: bool,
    /// Index of the item in the list.
    pub index: usize,
}

} // verus!
