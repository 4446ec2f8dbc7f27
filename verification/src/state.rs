//! The per-frame drag tracker: deciding which item is dragged, where it
//! would land, and what move a finished drag emits.

use vstd::prelude::*;

verus! {

use crate::utils::apply_move;
use crate::utils::shift_vec;

/// Coordinates along the drag axis are kept within this bound so that the
/// midpoint and offset arithmetic below cannot overflow an `i64`.
pub const COORD_LIMIT: i64 = 0x2000_0000_0000_0000;

/// The extent of one item along the drag axis: where it starts and how far
/// it runs.
#[derive(Clone, Copy, PartialEq, Eq, Structural, Debug)]
pub struct ItemExtent {
    /// Position of the item's leading edge along the drag axis.
    pub start: i64,
    /// Size of the item along the drag axis.
    pub length: i64,
}

/// An extent is well formed when its length is nonnegative and it lies
/// within the coordinate bound.
pub open spec fn extent_wf(e: ItemExtent) -> bool {
    &&& 0 <= e.length
    &&& -COORD_LIMIT <= e.start
    &&& e.start + e.length <= COORD_LIMIT
}

/// Midpoint of an item's extent along the drag axis: the tie-break line
/// that decides whether the pointer hovers the slot before or after it.
pub open spec fn extent_mid(e: ItemExtent) -> int {
    e.start + e.length / 2
}

/// The per-frame layout is well formed when every extent is, and the items
/// come in axis order (midpoints nondecreasing).
pub open spec fn extents_wf(s: Seq<ItemExtent>) -> bool {
    &&& (forall|i: int| 0 <= i < s.len() ==> extent_wf(#[trigger] s[i]))
    &&& (forall|i: int, j: int|
        0 <= i < j < s.len() ==> extent_mid(#[trigger] s[i]) <= extent_mid(#[trigger] s[j]))
}

/// `r` is the insertion slot for pointer position `p`: every item before the
/// slot has its midpoint at or before the pointer, every item after it has
/// its midpoint strictly past the pointer. For an ordered layout exactly one
/// such slot exists.
pub open spec fn is_insertion_slot(s: Seq<ItemExtent>, p: int, r: int) -> bool {
    &&& 0 <= r <= s.len()
    &&& (forall|k: int| 0 <= k < r ==> extent_mid(#[trigger] s[k]) <= p)
    &&& (forall|k: int| r <= k < s.len() ==> p < extent_mid(#[trigger] s[k]))
}

/// The insertion slot is unique: two slots that both satisfy
/// `is_insertion_slot` for the same layout and pointer are equal.
pub proof fn lemma_insertion_slot_unique(s: Seq<ItemExtent>, p: int, r1: int, r2: int)
    requires
        is_insertion_slot(s, p, r1),
        is_insertion_slot(s, p, r2),
    ensures
        r1 == r2,
{
    if r1 < r2 {
        assert(extent_mid(s[r1]) <= p);
        assert(p < extent_mid(s[r1]));
    }
    if r2 < r1 {
        assert(extent_mid(s[r2]) <= p);
        assert(p < extent_mid(s[r2]));
    }
}

/// Compute the insertion slot under the pointer: the number of items whose
/// midpoint lies at or before the pointer position.
pub fn insertion_index(extents: &Vec<ItemExtent>, pointer: i64) -> (r: usize)
    requires
        extents_wf(extents@),
    ensures
        is_insertion_slot(extents@, pointer as int, r as int),
{
    let n = extents.len();
    let mut i: usize = 0;
    while i < n
        invariant
            n == extents@.len(),
            i <= n,
            extents_wf(extents@),
            forall|k: int| 0 <= k < i ==> extent_mid(#[trigger] extents@[k]) <= pointer,
        decreases n - i,
    {
        let e = extents[i];
        let mid = e.start + e.length / 2;
        if pointer < mid {
            assert(forall|k: int|
                i <= k < extents@.len() ==> pointer < extent_mid(#[trigger] extents@[k]));
            return i;
        }
        i = i + 1;
    }
    i
}

/// Run-time check that a layout is what the tracker demands; true exactly
/// when `extents_wf` holds of it.
pub fn extents_well_formed(extents: &Vec<ItemExtent>) -> (r: bool)
    ensures
        r == extents_wf(extents@),
{
    let n = extents.len();
    let mut i: usize = 0;
    let mut prev_mid: i64 = 0;
    while i < n
        invariant
            i <= n,
            n == extents@.len(),
            forall|k: int| 0 <= k < i ==> extent_wf(#[trigger] extents@[k]),
            forall|a: int, b: int|
                0 <= a < b < i ==> extent_mid(#[trigger] extents@[a]) <= extent_mid(
                    #[trigger] extents@[b],
                ),
            i > 0 ==> prev_mid == extent_mid(extents@[i - 1]),
        decreases n - i,
    {
        let e = extents[i];
        if e.length < 0 || e.start < -COORD_LIMIT || e.start > COORD_LIMIT - e.length {
            assert(!extent_wf(extents@[i as int]));
            return false;
        }
        let mid = e.start + e.length / 2;
        if i > 0 && mid < prev_mid {
            assert(extent_mid(extents@[i - 1]) > extent_mid(extents@[i as int]));
            return false;
        }
        prev_mid = mid;
        i = i + 1;
    }
    true
}

/// A pointer coordinate the tracker accepts: within the bound that keeps the
/// offset arithmetic below exact.
pub open spec fn coord_ok(p: int) -> bool {
    -COORD_LIMIT <= p <= COORD_LIMIT
}

/// One finished drag: take the element at index `from` out of the list and
/// put it back at insertion slot `to`.
#[derive(Clone, Copy, PartialEq, Eq, Structural, Debug)]
pub struct DragUpdate {
    /// Index of the dragged element in the list as it was shown.
    pub from: usize,
    /// Insertion slot (a gap, `0 ..= len`) the element was dropped into.
    pub to: usize,
}

/// Drag state carried from one frame to the next.
#[derive(Clone, Copy, PartialEq, Eq, Structural, Debug)]
pub enum DragState {
    /// No item is being dragged.
    Idle,
    /// The item at `index` is being dragged; `offset` is where inside the
    /// item's extent the pointer grabbed it, so the floating item can follow
    /// the pointer.
    Dragging { index: usize, offset: i64 },
}

/// What the toolkit reports about the pointer this frame, reduced to the
/// drag axis.
#[derive(Clone, Copy, PartialEq, Eq, Structural, Debug)]
pub enum PointerEvent {
    /// The pointer is not interacting with any handle.
    Hover,
    /// The pointer started a drag on the handle of the item at `index`,
    /// with the pointer at `pointer` along the drag axis.
    Press { index: usize, pointer: i64 },
    /// The pointer is held down and sits at `pointer`.
    Move { pointer: i64 },
    /// The pointer was let go at `pointer`.
    Release { pointer: i64 },
    /// The drag was cancelled from outside (the pointer left the window,
    /// or the toolkit cleared its state).
    Cancel,
}

/// Every pointer coordinate an event carries lies within the bound.
pub open spec fn event_wf(e: PointerEvent) -> bool {
    match e {
        PointerEvent::Hover => true,
        PointerEvent::Press { index: _, pointer } => coord_ok(pointer as int),
        PointerEvent::Move { pointer } => coord_ok(pointer as int),
        PointerEvent::Release { pointer } => coord_ok(pointer as int),
        PointerEvent::Cancel => true,
    }
}

/// Run-time check that an event's coordinates are in bound; true exactly
/// when `event_wf` holds of it.
pub fn event_in_bounds(event: &PointerEvent) -> (r: bool)
    ensures
        r == event_wf(*event),
{
    match event {
        PointerEvent::Hover => true,
        PointerEvent::Press { index: _, pointer } => {
            -COORD_LIMIT <= *pointer && *pointer <= COORD_LIMIT
        },
        PointerEvent::Move { pointer } => -COORD_LIMIT <= *pointer && *pointer <= COORD_LIMIT,
        PointerEvent::Release { pointer } => -COORD_LIMIT <= *pointer && *pointer <= COORD_LIMIT,
        PointerEvent::Cancel => true,
    }
}

/// A drag state fits a list of `n` items when any dragged index points into
/// the list.
pub open spec fn state_wf(s: DragState, n: int) -> bool {
    match s {
        DragState::Idle => true,
        DragState::Dragging { index, offset: _ } => index < n,
    }
}

/// Advance the drag tracker by one frame: given the state carried over, the
/// pointer event of this frame, and the current item layout, produce the
/// state for the next frame and, on a finished drag, the one move to apply.
///
/// A press on an item's handle starts a drag and remembers where inside the
/// item the pointer grabbed it; a release while dragging ends the drag and
/// emits the move to the insertion slot under the pointer; a cancellation
/// resets to idle without emitting a move; everything else leaves the state
/// as it is.
pub fn step(state: DragState, event: PointerEvent, extents: &Vec<ItemExtent>) -> (res: (
    DragState,
    Option<DragUpdate>,
))
    requires
        extents_wf(extents@),
        state_wf(state, extents@.len() as int),
        event_wf(event),
    ensures
        state_wf(res.0, extents@.len() as int),
        res.1 matches Some(u) ==> u.from < extents@.len() && u.to <= extents@.len(),
        state is Idle ==> (event matches PointerEvent::Press { index, pointer } ==> ({
            if index < extents@.len() {
                &&& res.0 matches DragState::Dragging { index: di, offset }
                &&& di == index
                &&& offset == pointer - extents@[index as int].start
                &&& res.1 is None
            } else {
                res == (DragState::Idle, Option::<DragUpdate>::None)
            }
        })),
        state is Idle && !(event is Press) ==> res == (
            DragState::Idle,
            Option::<DragUpdate>::None,
        ),
        state matches DragState::Dragging { index, .. } ==> ({
            match event {
                PointerEvent::Release { pointer } => {
                    &&& res.0 is Idle
                    &&& res.1 matches Some(u)
                    &&& u.from == index
                    &&& is_insertion_slot(extents@, pointer as int, u.to as int)
                },
                PointerEvent::Cancel => res == (DragState::Idle, Option::<DragUpdate>::None),
                _ => res == (state, Option::<DragUpdate>::None),
            }
        }),
{
    match state {
        DragState::Idle => {
            match event {
                PointerEvent::Press { index, pointer } => {
                    if index < extents.len() {
                        let offset = pointer - extents[index].start;
                        (DragState::Dragging { index, offset }, None)
                    } else {
                        (DragState::Idle, None)
                    }
                },
                _ => (DragState::Idle, None),
            }
        },
        DragState::Dragging { index, .. } => {
            match event {
                PointerEvent::Release { pointer } => {
                    let to = insertion_index(extents, pointer);
                    (DragState::Idle, Some(DragUpdate { from: index, to }))
                },
                PointerEvent::Cancel => (DragState::Idle, None),
                _ => (state, None),
            }
        },
    }
}

/// Per-item state for the caller's callback: the item's index and whether
/// this very item is the one being dragged.
pub fn item_state(state: &DragState, index: usize) -> (r: crate::ItemState)
    ensures
        r.index == index,
        r.dragged == (state matches DragState::Dragging { index: di, .. } && di == index),
{
    let dragged = match state {
        DragState::Dragging { index: di, offset: _ } => *di == index,
        DragState::Idle => false,
    };
    crate::ItemState { dragged, index }
}

/// How a press is told apart from a click or a scroll, in layout units and
/// milliseconds.
#[derive(Clone, Copy, PartialEq, Eq, Structural, Debug)]
pub struct DragDropConfig {
    /// A press that moves no further than this still counts as a click.
    pub click_tolerance: u32,
    /// A press must be held this long before it can become a drag.
    pub drag_delay_ms: u64,
    /// When set, a press that strays further than this while the delay is
    /// still running is a scroll and never becomes a drag.
    pub scroll_tolerance: Option<u32>,
}

impl DragDropConfig {
    /// Configuration suited to dragging with the mouse: no hold delay.
    pub fn mouse() -> (r: Self)
        ensures
            r.click_tolerance == 1,
            r.drag_delay_ms == 0,
            r.scroll_tolerance is None,
    {
        DragDropConfig { click_tolerance: 1, drag_delay_ms: 0, scroll_tolerance: None }
    }

    /// Configuration suited to touch: a drag starts only after a short hold.
    pub fn touch() -> (r: Self)
        ensures
            r.click_tolerance == 3,
            r.drag_delay_ms == 300,
            r.scroll_tolerance is None,
    {
        DragDropConfig { click_tolerance: 3, drag_delay_ms: 300, scroll_tolerance: None }
    }

    /// Configuration suited to touch inside a scrollable area: early
    /// movement is handed to the scroll area instead of starting a drag.
    pub fn touch_scroll() -> (r: Self)
        ensures
            r.click_tolerance == 3,
            r.drag_delay_ms == 300,
            r.scroll_tolerance == Some(6u32),
    {
        DragDropConfig { click_tolerance: 3, drag_delay_ms: 300, scroll_tolerance: Some(6) }
    }
}

impl Default for DragDropConfig {
    /// The default drag detection is the mouse configuration.
    fn default() -> (r: Self)
        ensures
            r.click_tolerance == 1,
            r.drag_delay_ms == 0,
            r.scroll_tolerance is None,
    {
        DragDropConfig::mouse()
    }
}

/// Decide whether a press has turned into a drag: the press must have been
/// held for the configured delay, the pointer must have moved past the
/// click tolerance, and, where a scroll tolerance is set, the pointer must
/// not have strayed past it while the delay was still running.
pub fn press_becomes_drag(
    config: &DragDropConfig,
    held_ms: u64,
    moved: u32,
    moved_while_waiting: u32,
) -> (r: bool)
    ensures
        r == (held_ms >= config.drag_delay_ms && moved > config.click_tolerance && (
        config.scroll_tolerance matches Some(t) ==> moved_while_waiting <= t)),
{
    let scroll_ok = match config.scroll_tolerance {
        Some(t) => moved_while_waiting <= t,
        None => true,
    };
    held_ms >= config.drag_delay_ms && moved > config.click_tolerance && scroll_ok
}

/// What one frame of the widget reports back to the caller.
#[derive(Clone, Copy)]
pub struct DragDropResponse {
    /// The move emitted by a drag that finished this frame, if one did.
    pub update: Option<DragUpdate>,
    /// True if an ongoing drag was cancelled from outside this frame.
    pub cancelled: bool,
}

impl DragDropResponse {
    /// True if a drag finished this frame and a move was emitted.
    pub fn is_drag_finished(&self) -> (r: bool)
        ensures
            r == self.update is Some,
    {
        self.update.is_some()
    }

    /// Apply the emitted move, if any, to the caller's list. A move whose
    /// indices no longer fit the list leaves the list untouched.
    pub fn update_vec<T>(&self, items: &mut Vec<T>)
        ensures
            match self.update {
                Some(u) => if u.from < old(items)@.len() && u.to <= old(items)@.len() {
                    final(items)@ == apply_move(old(items)@, u.from as int, u.to as int)
                } else {
                    final(items)@ == old(items)@
                },
                None => final(items)@ == old(items)@,
            },
    {
        match self.update {
            Some(u) => {
                if u.from < items.len() && u.to <= items.len() {
                    shift_vec(u.from, u.to, items);
                }
            },
            None => {},
        }
    }
}

/// Bundle one frame's outcome for the caller: the move a finished drag
/// emitted, and whether an ongoing drag was cancelled from outside.
pub fn frame_response(
    state_before: &DragState,
    event: &PointerEvent,
    update: Option<DragUpdate>,
) -> (r: DragDropResponse)
    ensures
        r.update == update,
        r.cancelled == (state_before is Dragging && event is Cancel),
{
    let cancelled = match state_before {
        DragState::Dragging { .. } => matches!(event, PointerEvent::Cancel),
        DragState::Idle => false,
    };
    DragDropResponse { update, cancelled }
}

/// Frame-to-frame widget state: the drag tracker together with the drag
/// detection configuration, as the caller keeps it between frames.
#[derive(Clone, Copy)]
pub struct DragDropUi {
    /// Drag state carried from the previous frame.
    pub detection: DragState,
    /// Drag detection used with the mouse, and the fallback for touch.
    pub mouse_config: DragDropConfig,
    /// Drag detection used with touch, when set.
    pub touch_config: Option<DragDropConfig>,
}

impl DragDropUi {
    /// Sets the config used when dragging with the mouse or when no touch
    /// config is set.
    pub fn with_mouse_config(self, config: DragDropConfig) -> (r: Self)
        ensures
            r.mouse_config == config,
            r.touch_config == self.touch_config,
            r.detection == self.detection,
    {
        DragDropUi { mouse_config: config, ..self }
    }

    /// Sets the config used when dragging with touch. If `None`, the mouse
    /// config is used instead.
    pub fn with_touch_config(self, config: Option<DragDropConfig>) -> (r: Self)
        ensures
            r.touch_config == config,
            r.mouse_config == self.mouse_config,
            r.detection == self.detection,
    {
        DragDropUi { touch_config: config, ..self }
    }

    /// Run one frame of the widget, with the run-time checks in front of
    /// the tracker: a frame whose layout or event is out of shape does
    /// nothing, a drag whose item no longer points into the list counts as
    /// cancelled from outside, and any other frame is one step of the
    /// tracker ([`step`]).
    pub fn handle_frame(&mut self, event: PointerEvent, extents: &Vec<ItemExtent>) -> (r:
        DragDropResponse)
        ensures
            final(self).mouse_config == old(self).mouse_config,
            final(self).touch_config == old(self).touch_config,
            !(extents_wf(extents@) && event_wf(event)) ==> *final(self) == *old(self) && r.update
                is None && !r.cancelled,
            extents_wf(extents@) && event_wf(event) && !state_wf(
                old(self).detection,
                extents@.len() as int,
            ) ==> final(self).detection is Idle && r.update is None && r.cancelled,
            extents_wf(extents@) && event_wf(event) && state_wf(
                old(self).detection,
                extents@.len() as int,
            ) ==> ({
                let det = old(self).detection;
                &&& state_wf(final(self).detection, extents@.len() as int)
                &&& r.cancelled == (det is Dragging && event is Cancel)
                &&& (det is Idle ==> (event matches PointerEvent::Press { index, pointer } ==> ({
                    if index < extents@.len() {
                        &&& final(self).detection matches DragState::Dragging {
                            index: di,
                            offset,
                        }
                        &&& di == index
                        &&& offset == pointer - extents@[index as int].start
                        &&& r.update is None
                    } else {
                        final(self).detection is Idle && r.update is None
                    }
                })))
                &&& (det is Idle && !(event is Press) ==> final(self).detection is Idle
                    && r.update is None)
                &&& (det matches DragState::Dragging { index, .. } ==> (match event {
                    PointerEvent::Release { pointer } => {
                        &&& final(self).detection is Idle
                        &&& r.update matches Some(u)
                        &&& u.from == index
                        &&& u.to <= extents@.len()
                        &&& is_insertion_slot(extents@, pointer as int, u.to as int)
                    },
                    PointerEvent::Cancel => final(self).detection is Idle && r.update is None,
                    _ => final(self).detection == det && r.update is None,
                }))
            }),
    {
        if !(extents_well_formed(extents) && event_in_bounds(&event)) {
            return DragDropResponse { update: None, cancelled: false };
        }
        let det = self.detection;
        let fits = match det {
            DragState::Dragging { index, .. } => index < extents.len(),
            DragState::Idle => true,
        };
        if !fits {
            self.detection = DragState::Idle;
            return DragDropResponse { update: None, cancelled: true };
        }
        let (next, update) = step(det, event, extents);
        self.detection = next;
        frame_response(&det, &event, update)
    }

    /// The drag detection in effect: the touch config when the pointer is a
    /// touch and one is set, the mouse config otherwise.
    pub fn config_for(&self, touch: bool) -> (r: DragDropConfig)
        ensures
            (touch ==> (self.touch_config matches Some(c) ==> r == c)),
            (touch && self.touch_config is None ==> r == self.mouse_config),
            (!touch ==> r == self.mouse_config),
    {
        if touch {
            match self.touch_config {
                Some(c) => c,
                None => self.mouse_config,
            }
        } else {
            self.mouse_config
        }
    }
}

impl Default for DragDropUi {
    /// A fresh widget: idle, mouse detection for the mouse, touch detection
    /// for touch.
    fn default() -> (r: Self)
        ensures
            r.detection is Idle,
            r.mouse_config.click_tolerance == 1,
            r.mouse_config.drag_delay_ms == 0,
            r.mouse_config.scroll_tolerance is None,
            (r.touch_config matches Some(c) ==> c.click_tolerance == 3 && c.drag_delay_ms == 300
                && c.scroll_tolerance is None),
            r.touch_config is Some,
    {
        DragDropUi {
            detection: DragState::Idle,
            mouse_config: DragDropConfig::mouse(),
            touch_config: Some(DragDropConfig::touch()),
        }
    }
}

} // verus!
