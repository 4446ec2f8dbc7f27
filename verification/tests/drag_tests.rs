use egui_dnd::state::{
    event_in_bounds, extents_well_formed, frame_response, insertion_index, item_state,
    press_becomes_drag, step, DragDropConfig, DragDropResponse, DragDropUi, DragState, DragUpdate,
    ItemExtent, PointerEvent, COORD_LIMIT,
};
use egui_dnd::utils::shift_vec;

fn row_extents(n: usize, length: i64) -> Vec<ItemExtent> {
    (0..n)
        .map(|i| ItemExtent {
            start: i as i64 * length,
            length,
        })
        .collect()
}

#[test]
fn shift_vec_moves_forward() {
    let mut v = vec![1, 2, 3, 4];
    shift_vec(0, 2, &mut v);
    assert_eq!(v, vec![2, 1, 3, 4]);
}

#[test]
fn shift_vec_moves_backward() {
    let mut v = vec!["a", "b", "c", "d"];
    shift_vec(3, 1, &mut v);
    assert_eq!(v, vec!["a", "d", "b", "c"]);
}

#[test]
fn shift_vec_to_the_very_end() {
    let mut v = vec![1, 2, 3];
    shift_vec(0, 3, &mut v);
    assert_eq!(v, vec![2, 3, 1]);
}

#[test]
fn shift_vec_same_slot_is_a_no_op() {
    let mut v = vec![1, 2, 3];
    shift_vec(1, 1, &mut v);
    assert_eq!(v, vec![1, 2, 3]);
    shift_vec(1, 2, &mut v);
    assert_eq!(v, vec![1, 2, 3]);
}

#[test]
fn shift_vec_keeps_relative_order_of_the_rest() {
    let mut v = vec![10, 20, 30, 40, 50];
    shift_vec(1, 4, &mut v);
    assert_eq!(v, vec![10, 30, 40, 20, 50]);
    let mut without_moved: Vec<i32> = v.clone();
    without_moved.retain(|x| *x != 20);
    assert_eq!(without_moved, vec![10, 30, 40, 50]);
}

#[test]
fn insertion_index_counts_midpoints_at_or_before_pointer() {
    let extents = row_extents(3, 10);
    assert_eq!(insertion_index(&extents, -100), 0);
    assert_eq!(insertion_index(&extents, 4), 0);
    assert_eq!(insertion_index(&extents, 5), 1);
    assert_eq!(insertion_index(&extents, 14), 1);
    assert_eq!(insertion_index(&extents, 15), 2);
    assert_eq!(insertion_index(&extents, 25), 3);
    assert_eq!(insertion_index(&extents, 100), 3);
}

#[test]
fn insertion_index_on_empty_layout() {
    let extents: Vec<ItemExtent> = vec![];
    assert_eq!(insertion_index(&extents, 0), 0);
}

#[test]
fn press_starts_a_drag_and_remembers_the_grab_offset() {
    let extents = row_extents(3, 10);
    let (state, update) = step(
        DragState::Idle,
        PointerEvent::Press {
            index: 1,
            pointer: 13,
        },
        &extents,
    );
    assert_eq!(
        state,
        DragState::Dragging {
            index: 1,
            offset: 3
        }
    );
    assert_eq!(update, None);
}

#[test]
fn press_outside_the_list_is_ignored() {
    let extents = row_extents(2, 10);
    let (state, update) = step(
        DragState::Idle,
        PointerEvent::Press {
            index: 5,
            pointer: 0,
        },
        &extents,
    );
    assert_eq!(state, DragState::Idle);
    assert_eq!(update, None);
}

#[test]
fn release_emits_the_move_under_the_pointer() {
    let extents = row_extents(3, 10);
    let dragging = DragState::Dragging {
        index: 1,
        offset: 3,
    };
    let (state, update) = step(dragging, PointerEvent::Release { pointer: 25 }, &extents);
    assert_eq!(state, DragState::Idle);
    assert_eq!(update, Some(DragUpdate { from: 1, to: 3 }));
}

#[test]
fn cancel_resets_without_emitting_a_move() {
    let extents = row_extents(3, 10);
    let dragging = DragState::Dragging {
        index: 2,
        offset: 0,
    };
    let (state, update) = step(dragging, PointerEvent::Cancel, &extents);
    assert_eq!(state, DragState::Idle);
    assert_eq!(update, None);
}

#[test]
fn moving_the_pointer_keeps_the_drag() {
    let extents = row_extents(3, 10);
    let dragging = DragState::Dragging {
        index: 0,
        offset: 5,
    };
    let (state, update) = step(dragging, PointerEvent::Move { pointer: 22 }, &extents);
    assert_eq!(state, dragging);
    assert_eq!(update, None);
}

#[test]
fn hovering_while_idle_stays_idle() {
    let extents = row_extents(3, 10);
    let (state, update) = step(DragState::Idle, PointerEvent::Hover, &extents);
    assert_eq!(state, DragState::Idle);
    assert_eq!(update, None);
}

#[test]
fn whole_drag_moves_the_item_and_keeps_the_rest() {
    let mut items = vec!["alfred", "bernhard", "christian"];
    let extents = row_extents(items.len(), 20);

    let (state, update) = step(
        DragState::Idle,
        PointerEvent::Press {
            index: 0,
            pointer: 2,
        },
        &extents,
    );
    assert_eq!(update, None);
    let (state, update) = step(state, PointerEvent::Move { pointer: 31 }, &extents);
    assert_eq!(update, None);
    let (state, update) = step(state, PointerEvent::Release { pointer: 31 }, &extents);
    assert_eq!(state, DragState::Idle);
    assert_eq!(update, Some(DragUpdate { from: 0, to: 2 }));

    let response = frame_response(
        &DragState::Dragging {
            index: 0,
            offset: 2,
        },
        &PointerEvent::Release { pointer: 31 },
        update,
    );
    assert!(response.is_drag_finished());
    assert!(!response.cancelled);
    response.update_vec(&mut items);
    assert_eq!(items, vec!["bernhard", "alfred", "christian"]);
}

#[test]
fn cancelled_frame_is_reported_and_leaves_the_list_alone() {
    let mut items = vec![1, 2, 3];
    let dragging = DragState::Dragging {
        index: 1,
        offset: 0,
    };
    let response = frame_response(&dragging, &PointerEvent::Cancel, None);
    assert!(response.cancelled);
    assert!(!response.is_drag_finished());
    response.update_vec(&mut items);
    assert_eq!(items, vec![1, 2, 3]);
}

#[test]
fn stale_update_leaves_a_shrunk_list_alone() {
    let mut items = vec![1, 2];
    let response = DragDropResponse {
        update: Some(DragUpdate { from: 4, to: 1 }),
        cancelled: false,
    };
    response.update_vec(&mut items);
    assert_eq!(items, vec![1, 2]);
}

#[test]
fn item_state_marks_only_the_dragged_item() {
    let dragging = DragState::Dragging {
        index: 1,
        offset: 7,
    };
    let s0 = item_state(&dragging, 0);
    assert!(!s0.dragged);
    assert_eq!(s0.index, 0);
    let s1 = item_state(&dragging, 1);
    assert!(s1.dragged);
    assert_eq!(s1.index, 1);
    let idle = item_state(&DragState::Idle, 1);
    assert!(!idle.dragged);
}

#[test]
fn mouse_presses_drag_once_past_the_click_tolerance() {
    let config = DragDropConfig::mouse();
    assert!(press_becomes_drag(&config, 0, 2, 0));
    assert!(!press_becomes_drag(&config, 100, 1, 0));
}

#[test]
fn touch_presses_drag_only_after_the_hold_delay() {
    let config = DragDropConfig::touch();
    assert!(!press_becomes_drag(&config, 299, 10, 0));
    assert!(press_becomes_drag(&config, 300, 10, 0));
}

#[test]
fn early_scroll_movement_suppresses_the_drag() {
    let config = DragDropConfig::touch_scroll();
    assert!(!press_becomes_drag(&config, 400, 10, 7));
    assert!(press_becomes_drag(&config, 400, 10, 6));
}

#[test]
fn touch_config_is_used_for_touch_and_falls_back_to_mouse() {
    let ui = DragDropUi::default();
    assert_eq!(ui.config_for(true).drag_delay_ms, 300);
    assert_eq!(ui.config_for(false).drag_delay_ms, 0);
    let ui = ui.with_touch_config(None);
    assert_eq!(ui.config_for(true).drag_delay_ms, 0);
    let ui = ui.with_mouse_config(DragDropConfig::touch_scroll());
    assert_eq!(ui.config_for(false).scroll_tolerance, Some(6));
    assert_eq!(ui.config_for(true).scroll_tolerance, Some(6));
}

#[test]
fn fresh_widget_state_is_idle() {
    let ui = DragDropUi::default();
    assert_eq!(ui.detection, DragState::Idle);
    assert_eq!(ui.mouse_config, DragDropConfig::mouse());
    assert_eq!(ui.touch_config, Some(DragDropConfig::touch()));
}

#[test]
fn layout_check_accepts_ordered_and_rejects_disordered_extents() {
    assert!(extents_well_formed(&row_extents(4, 10)));
    assert!(extents_well_formed(&Vec::new()));
    let disordered = vec![
        ItemExtent {
            start: 20,
            length: 10,
        },
        ItemExtent {
            start: 0,
            length: 10,
        },
    ];
    assert!(!extents_well_formed(&disordered));
    let negative = vec![ItemExtent {
        start: 0,
        length: -1,
    }];
    assert!(!extents_well_formed(&negative));
}

#[test]
fn event_check_rejects_out_of_bound_coordinates() {
    assert!(event_in_bounds(&PointerEvent::Hover));
    assert!(event_in_bounds(&PointerEvent::Move { pointer: 10 }));
    assert!(!event_in_bounds(&PointerEvent::Move {
        pointer: COORD_LIMIT + 1
    }));
    assert!(!event_in_bounds(&PointerEvent::Release {
        pointer: i64::MIN
    }));
}

#[test]
fn widget_state_runs_a_whole_drag() {
    let mut ui = DragDropUi::default();
    let extents = row_extents(3, 10);
    let r = ui.handle_frame(
        PointerEvent::Press {
            index: 2,
            pointer: 26,
        },
        &extents,
    );
    assert_eq!(r.update, None);
    assert!(!r.cancelled);
    assert_eq!(
        ui.detection,
        DragState::Dragging {
            index: 2,
            offset: 6
        }
    );
    let r = ui.handle_frame(PointerEvent::Release { pointer: 3 }, &extents);
    assert_eq!(r.update, Some(DragUpdate { from: 2, to: 0 }));
    assert_eq!(ui.detection, DragState::Idle);
}

#[test]
fn widget_state_cancels_a_drag_whose_item_is_gone() {
    let mut ui = DragDropUi::default();
    ui.detection = DragState::Dragging {
        index: 5,
        offset: 0,
    };
    let extents = row_extents(2, 10);
    let r = ui.handle_frame(PointerEvent::Move { pointer: 5 }, &extents);
    assert!(r.cancelled);
    assert_eq!(r.update, None);
    assert_eq!(ui.detection, DragState::Idle);
}

#[test]
fn widget_state_ignores_an_ill_formed_frame() {
    let mut ui = DragDropUi::default();
    ui.detection = DragState::Dragging {
        index: 0,
        offset: 0,
    };
    let disordered = vec![
        ItemExtent {
            start: 20,
            length: 10,
        },
        ItemExtent {
            start: 0,
            length: 10,
        },
    ];
    let r = ui.handle_frame(PointerEvent::Release { pointer: 5 }, &disordered);
    assert_eq!(r.update, None);
    assert!(!r.cancelled);
    assert_eq!(
        ui.detection,
        DragState::Dragging {
            index: 0,
            offset: 0
        }
    );
}

#[test]
fn item_state_fields_are_plain_data() {
    let s = egui_dnd::ItemState {
        dragged: true,
        index: 4,
    };
    assert!(s.dragged);
    assert_eq!(s.index, 4);
}
