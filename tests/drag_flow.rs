use draggable::{
    DragAreaActiveDragData, DragAreaStates, DragEndings, DragError, DragErrorType, DragOrigin,
    DraggablePositionData, DraggableRestStates, DraggableSnapStates, DraggableStateController,
    DraggableStates, DraggableTransitionData, DraggableTransitionMode, DraggableVariants,
    GlobalDragState, LocalDragState, PointData, RectData, RenderStyle, SnapInfo,
};

fn rect(x: i64, y: i64, w: u64, h: u64) -> RectData {
    RectData::new(x, y, w, h)
}

fn point(x: i64, y: i64) -> PointData {
    PointData { x, y }
}

fn docked(id: &str, snap: SnapInfo) -> LocalDragState {
    let mut panel = LocalDragState::new(DraggableVariants::DOCKED, id.to_string());
    panel.initialize(snap);
    panel
}

fn begin_drag(arena: &mut GlobalDragState, panel: &mut LocalDragState, grab: PointData, at: PointData) {
    let grab_data = panel.start_drag(grab).expect("panel can be lifted");
    arena.start_drag(DragAreaActiveDragData { current_pos: at, starting_data: grab_data.drag_origin });
}

#[test]
fn concrete_grab_move_release() {
    let target = rect(0, 0, 100, 100);
    let mut d1 = docked("d1", SnapInfo::new(Some("t".to_string()), target));
    let mut arena = GlobalDragState::new();
    begin_drag(&mut arena, &mut d1, point(10, 10), point(10, 10));
    arena.update_drag(point(50, 50));
    let frame = d1.get_render_data(arena.get_drag_state(), target);
    assert_eq!(frame.style, RenderStyle::Free);
    assert_eq!(frame.position_data, DraggablePositionData::Rect(rect(40, 40, 100, 100)));
    arena.stop_drag();
    d1.update_state(arena.get_drag_state(), target);
    assert_eq!(
        d1.get_drag_state(),
        DraggableStates::Resting(DraggableRestStates::Released(rect(40, 40, 100, 100)))
    );
}

#[test]
fn release_offset_keeps_measured_size() {
    let mut panel = LocalDragState::new(DraggableVariants::FLOATING(point(0, 0)), "p".to_string());
    panel.initialize(SnapInfo::new(None, rect(5, 7, 30, 20)));
    let mut arena = GlobalDragState::new();
    begin_drag(&mut arena, &mut panel, point(3, 4), point(8, 11));
    arena.update_drag(point(-100, 250));
    let measured = rect(0, 0, 30, 20);
    panel.update_state(arena.get_drag_state(), measured);
    assert!(matches!(panel.get_drag_state(), DraggableStates::Grabbed(_)));
    DraggableStateController::stop_drag(&mut arena);
    panel.update_state(arena.get_drag_state(), measured);
    assert_eq!(
        panel.get_drag_state(),
        DraggableStates::Resting(DraggableRestStates::Released(rect(-103, 246, 30, 20)))
    );
}

#[test]
fn release_offset_saturates_at_bounds() {
    let mut panel = LocalDragState::new(DraggableVariants::FLOATING(point(0, 0)), "p".to_string());
    panel.initialize(SnapInfo::new(None, rect(0, 0, 10, 10)));
    let mut arena = GlobalDragState::new();
    begin_drag(&mut arena, &mut panel, point(10, -10), point(i64::MIN, i64::MAX));
    arena.stop_drag();
    panel.update_state(arena.get_drag_state(), rect(0, 0, 10, 10));
    assert_eq!(
        panel.get_drag_state(),
        DraggableStates::Resting(DraggableRestStates::Released(rect(i64::MIN, i64::MAX, 10, 10)))
    );
}

#[test]
fn origin_capture_from_final_snap() {
    let info = SnapInfo::new(Some("t".to_string()), rect(0, 0, 50, 60));
    let mut panel = docked("p", info.duplicate());
    let grab = panel.start_drag(point(1, 2)).unwrap();
    assert_eq!(grab.grab_point, point(1, 2));
    assert_eq!(grab.drag_origin, DragOrigin::Snapped(info));
}

#[test]
fn origin_capture_from_floating_rest_is_free() {
    let mut panel = LocalDragState::new(DraggableVariants::FLOATING(point(0, 0)), "p".to_string());
    panel.initialize(SnapInfo::new(Some("t".to_string()), rect(9, 9, 5, 5)));
    let grab = panel.start_drag(point(0, 0)).unwrap();
    assert_eq!(grab.drag_origin, DragOrigin::Free(rect(9, 9, 5, 5)));
    assert_eq!(grab.drag_origin.get_snap_info(), SnapInfo::new(None, rect(9, 9, 5, 5)));
}

#[test]
fn start_drag_from_transition_uses_destination() {
    let from = SnapInfo::new(None, rect(0, 0, 10, 10));
    let to = SnapInfo::new(Some("t".to_string()), rect(100, 0, 10, 10));
    let mut panel = docked("p", from.duplicate());
    let mut arena = GlobalDragState::new();
    begin_drag(&mut arena, &mut panel, point(0, 0), point(5, 5));
    arena.set_snap_info(Some(to.duplicate()));
    arena.stop_drag();
    panel.update_state(arena.get_drag_state(), rect(0, 0, 10, 10));
    assert!(matches!(
        panel.get_drag_state(),
        DraggableStates::Resting(DraggableRestStates::Snapped(DraggableSnapStates::Transitioning(_)))
    ));
    let grab = panel.start_drag(point(2, 2)).unwrap();
    assert_eq!(grab.drag_origin, DragOrigin::Snapped(to));
}

#[test]
fn illegal_drag_start_cases() {
    let mut fresh = LocalDragState::new(DraggableVariants::DOCKED, "p".to_string());
    assert!(fresh.get_is_uninitialized());
    assert_eq!(fresh.start_drag(point(0, 0)), Err(DragError(DragErrorType::IllegalDragStart)));
    assert_eq!(fresh.get_drag_state(), DraggableStates::Initial);

    let mut panel = docked("p", SnapInfo::new(None, rect(0, 0, 10, 10)));
    panel.start_drag(point(0, 0)).unwrap();
    assert_eq!(panel.start_drag(point(1, 1)), Err(DragError(DragErrorType::IllegalDragStart)));
    assert!(matches!(panel.get_drag_state(), DraggableStates::Grabbed(_)));
}

#[test]
fn illegal_drag_start_during_preview() {
    let b_rect = rect(200, 0, 100, 100);
    let mut a = docked("a", SnapInfo::new(Some("ta".to_string()), rect(0, 0, 100, 100)));
    let mut b = docked("b", SnapInfo::new(Some("tb".to_string()), b_rect));
    let mut arena = GlobalDragState::new();
    begin_drag(&mut arena, &mut a, point(5, 5), point(5, 5));
    arena.update_drag(point(250, 50));
    b.update_state(arena.get_drag_state(), b_rect);
    b.update_state(arena.get_drag_state(), b_rect);
    assert!(matches!(
        b.get_drag_state(),
        DraggableStates::Resting(DraggableRestStates::Snapped(DraggableSnapStates::Preview(_)))
    ));
    assert_eq!(b.start_drag(point(0, 0)), Err(DragError(DragErrorType::IllegalDragStart)));
}

fn avoidance_setup(
    drop_snap: Option<SnapInfo>,
) -> (LocalDragState, SnapInfo, SnapInfo) {
    let a_start = SnapInfo::new(Some("ta".to_string()), rect(0, 0, 100, 100));
    let b_info = SnapInfo::new(Some("tb".to_string()), rect(200, 0, 100, 100));
    let mut a = docked("a", a_start.duplicate());
    let mut b = docked("b", b_info.duplicate());
    let mut arena = GlobalDragState::new();
    begin_drag(&mut arena, &mut a, point(10, 10), point(10, 10));
    arena.update_drag(point(250, 50));
    let measured = b_info.rect;
    b.update_state(arena.get_drag_state(), measured);
    let t = DraggableTransitionData::new(
        b_info.duplicate(),
        a_start.duplicate(),
        DraggableTransitionMode::Avoidance,
    );
    assert_eq!(
        b.get_drag_state(),
        DraggableStates::Resting(DraggableRestStates::Snapped(DraggableSnapStates::Transitioning(
            t.duplicate()
        )))
    );
    b.update_state(arena.get_drag_state(), measured);
    assert_eq!(
        b.get_drag_state(),
        DraggableStates::Resting(DraggableRestStates::Snapped(DraggableSnapStates::Preview(t)))
    );
    let render = b.get_render_data(arena.get_drag_state(), measured);
    assert_eq!(render.style, RenderStyle::Snapped);
    assert_eq!(render.position_data, DraggablePositionData::Rect(a_start.rect));
    arena.set_snap_info(drop_snap);
    arena.stop_drag();
    b.update_state(arena.get_drag_state(), measured);
    (b, a_start, b_info)
}

#[test]
fn avoidance_commits_on_overlapping_drop() {
    let (b, a_start, _) = avoidance_setup(Some(SnapInfo::new(Some("tb".to_string()), rect(210, 10, 50, 50))));
    assert_eq!(
        b.get_drag_state(),
        DraggableStates::Resting(DraggableRestStates::Snapped(DraggableSnapStates::Final(a_start)))
    );
}

#[test]
fn avoidance_reverts_on_distant_drop() {
    let (mut b, _, b_info) =
        avoidance_setup(Some(SnapInfo::new(Some("tc".to_string()), rect(500, 500, 50, 50))));
    match b.get_drag_state() {
        DraggableStates::Resting(DraggableRestStates::Snapped(DraggableSnapStates::Transitioning(t))) => {
            assert_eq!(t.to, b_info.duplicate());
            assert_eq!(t.mode, DraggableTransitionMode::Resting);
        }
        other => panic!("unexpected state {:?}", other),
    }
    b.update_state(DragAreaStates::Initial, b_info.rect);
    assert_eq!(
        b.get_drag_state(),
        DraggableStates::Resting(DraggableRestStates::Snapped(DraggableSnapStates::Final(b_info)))
    );
}

#[test]
fn avoidance_reverts_on_free_release() {
    let (b, _, b_info) = avoidance_setup(None);
    match b.get_drag_state() {
        DraggableStates::Resting(DraggableRestStates::Snapped(DraggableSnapStates::Transitioning(t))) => {
            assert_eq!(t.to, b_info);
        }
        other => panic!("unexpected state {:?}", other),
    }
}

#[test]
fn touching_edges_do_not_commit() {
    // The drop target shares only B's left edge: no overlap of positive area.
    let (b, _, b_info) = avoidance_setup(Some(SnapInfo::new(None, rect(100, 0, 100, 100))));
    match b.get_drag_state() {
        DraggableStates::Resting(DraggableRestStates::Snapped(DraggableSnapStates::Transitioning(t))) => {
            assert_eq!(t.to, b_info);
        }
        other => panic!("unexpected state {:?}", other),
    }
}

#[test]
fn preview_reverses_when_pointer_leaves_origin() {
    let a_start = SnapInfo::new(Some("ta".to_string()), rect(0, 0, 100, 100));
    let b_info = SnapInfo::new(Some("tb".to_string()), rect(200, 0, 100, 100));
    let mut a = docked("a", a_start.duplicate());
    let mut b = docked("b", b_info.duplicate());
    let mut arena = GlobalDragState::new();
    begin_drag(&mut arena, &mut a, point(10, 10), point(10, 10));
    arena.update_drag(point(250, 50));
    b.update_state(arena.get_drag_state(), b_info.rect);
    b.update_state(arena.get_drag_state(), b_info.rect);
    arena.update_drag(point(700, 700));
    b.update_state(arena.get_drag_state(), b_info.rect);
    match b.get_drag_state() {
        DraggableStates::Resting(DraggableRestStates::Snapped(DraggableSnapStates::Transitioning(t))) => {
            assert_eq!(t.from, a_start);
            assert_eq!(t.to, b_info);
            assert_eq!(t.mode, DraggableTransitionMode::Resting);
        }
        other => panic!("unexpected state {:?}", other),
    }
}

#[test]
fn dropped_panel_transitions_to_target() {
    let origin = SnapInfo::new(Some("ta".to_string()), rect(0, 0, 100, 100));
    let target = SnapInfo::new(Some("tb".to_string()), rect(300, 0, 120, 80));
    let mut a = docked("a", origin.duplicate());
    let mut arena = GlobalDragState::new();
    begin_drag(&mut arena, &mut a, point(10, 10), point(10, 10));
    arena.update_drag(point(320, 20));
    arena.set_snap_info(Some(target.duplicate()));
    arena.stop_drag();
    assert_eq!(arena.get_drag_state(), DragAreaStates::Released(DragEndings::Snapping(target.duplicate())));
    let measured = rect(310, 10, 100, 100);
    let render = a.get_render_data(arena.get_drag_state(), measured);
    assert_eq!(render.position_data, DraggablePositionData::Rect(measured));
    a.update_state(arena.get_drag_state(), measured);
    let t = DraggableTransitionData::new(origin, target.duplicate(), DraggableTransitionMode::Resting);
    assert_eq!(
        a.get_drag_state(),
        DraggableStates::Resting(DraggableRestStates::Snapped(DraggableSnapStates::Transitioning(t.duplicate())))
    );
    let render = a.get_render_data(arena.get_drag_state(), measured);
    assert_eq!(render.style, RenderStyle::Transitioning);
    assert_eq!(render.position_data, DraggablePositionData::Anim(t));
    a.update_state(arena.get_drag_state(), measured);
    assert_eq!(
        a.get_drag_state(),
        DraggableStates::Resting(DraggableRestStates::Snapped(DraggableSnapStates::Final(target)))
    );
}

#[test]
fn render_data_of_uninitialized_and_illegal_pairs() {
    let fresh = LocalDragState::new(DraggableVariants::DOCKED, "p".to_string());
    let frame = fresh.get_render_data(DragAreaStates::Initial, rect(0, 0, 1, 1));
    assert_eq!(frame.style, RenderStyle::Base);
    assert_eq!(frame.position_data, DraggablePositionData::Default);
    assert_eq!(fresh.check_render_state(&DragAreaStates::Initial), Ok(()));

    let mut grabbed = docked("p", SnapInfo::new(None, rect(0, 0, 10, 10)));
    grabbed.start_drag(point(0, 0)).unwrap();
    assert_eq!(
        grabbed.check_render_state(&DragAreaStates::Initial),
        Err(DragError(DragErrorType::IllegalRenderState))
    );
    let frame = grabbed.get_render_data(DragAreaStates::Initial, rect(0, 0, 10, 10));
    assert_eq!(frame.position_data, DraggablePositionData::Default);
}

#[test]
fn initialize_only_once_and_by_variant() {
    let mut floating = LocalDragState::new(DraggableVariants::FLOATING(point(1, 1)), "f".to_string());
    floating.initialize(SnapInfo::new(Some("t".to_string()), rect(1, 2, 3, 4)));
    assert_eq!(
        floating.get_drag_state(),
        DraggableStates::Resting(DraggableRestStates::Released(rect(1, 2, 3, 4)))
    );
    floating.initialize(SnapInfo::new(None, rect(9, 9, 9, 9)));
    assert_eq!(
        floating.get_drag_state(),
        DraggableStates::Resting(DraggableRestStates::Released(rect(1, 2, 3, 4)))
    );
    assert_eq!(floating.get_element_id(), "f".to_string());
    let render = floating.get_render_data(DragAreaStates::Initial, rect(0, 0, 0, 0));
    assert_eq!(render.style, RenderStyle::Free);
    assert_eq!(render.position_data, DraggablePositionData::Rect(rect(1, 2, 3, 4)));
}
