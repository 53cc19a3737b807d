use draggable::{
    DragAreaStates, DraggableRestStates, DraggableSnapStates, DraggableStates, DraggableTransitionData,
    DraggableTransitionMode, DraggableVariants, GridData, GridState, LocalDragState, RectData,
    SnapInfo, TRANSITION_DURATION_MS,
};

fn snap(x: i64, y: i64, w: u64, h: u64) -> SnapInfo {
    SnapInfo::new(Some("t".to_string()), RectData::new(x, y, w, h))
}

#[test]
fn reverse_is_an_involution() {
    let t = DraggableTransitionData::new(snap(0, 0, 1, 1), snap(5, 5, 2, 2), DraggableTransitionMode::Avoidance);
    let once = t.reverse();
    assert_eq!(once.from, t.to);
    assert_eq!(once.to, t.from);
    assert_eq!(once.mode, DraggableTransitionMode::Resting);
    let twice = once.reverse();
    assert_eq!(twice.from, t.from);
    assert_eq!(twice.to, t.to);
    assert_eq!(twice.mode, t.mode);
    assert_eq!(DraggableTransitionMode::Resting.reverse(), DraggableTransitionMode::Avoidance);
}

#[test]
fn reverse_resets_the_clock() {
    let mut t = DraggableTransitionData::new(snap(0, 0, 1, 1), snap(5, 5, 2, 2), DraggableTransitionMode::Resting);
    t.poll(10);
    t.poll(20);
    assert_eq!(t.started_at, Some(10));
    assert_eq!(t.elapsed_cycles, 2);
    let r = t.reverse();
    assert_eq!(r.started_at, None);
    assert_eq!(r.elapsed_cycles, 0);
}

#[test]
fn poll_is_monotone_and_finishes() {
    let mut t = DraggableTransitionData::new(
        snap(0, 1000, 100, 300),
        snap(1000, 0, 200, 100),
        DraggableTransitionMode::Resting,
    );
    let start = 5_000u64;
    let mut last = t.poll(start);
    assert!(!last.finished);
    assert_eq!(last.current, RectData::new(0, 1000, 100, 300));
    let mut now = start;
    while now < start + TRANSITION_DURATION_MS + 100 {
        now += 37;
        let frame = t.poll(now);
        let c = frame.current;
        let p = last.current;
        assert!(p.origin.x <= c.origin.x && c.origin.x <= 1000);
        assert!(p.origin.y >= c.origin.y && c.origin.y >= 0);
        assert!(p.size.width <= c.size.width && c.size.width <= 200);
        assert!(p.size.height >= c.size.height && c.size.height >= 100);
        assert_eq!(frame.finished, now - start >= TRANSITION_DURATION_MS);
        if last.finished {
            assert!(frame.finished);
        }
        last = frame;
    }
    assert!(last.finished);
    assert_eq!(last.current, RectData::new(1000, 0, 200, 100));
}

#[test]
fn poll_interpolates_exactly() {
    let mut t = DraggableTransitionData::new(
        snap(0, 0, 100, 100),
        snap(1000, -500, 300, 0),
        DraggableTransitionMode::Resting,
    );
    t.poll(0);
    let quarter = t.poll(TRANSITION_DURATION_MS / 4);
    assert!(!quarter.finished);
    assert_eq!(quarter.current, RectData::new(250, -125, 150, 75));
    let before = t.poll(0);
    assert_eq!(before.current, RectData::new(0, 0, 100, 100));
    let frac = RectData::new(10, 10, 10, 10).percent_transition(RectData::new(0, 0, 0, 0), 1, 3);
    assert_eq!(frac, RectData::new(3, 3, 3, 3));
    let back = RectData::new(0, 0, 0, 0).percent_transition(RectData::new(10, 10, 10, 10), 1, 3);
    assert_eq!(back, RectData::new(7, 7, 7, 7));
}

#[test]
fn panel_poll_settles_finished_transition() {
    let from = snap(0, 0, 10, 10);
    let to = snap(100, 0, 10, 10);
    let mut panel = LocalDragState::new(DraggableVariants::DOCKED, "p".to_string());
    assert_eq!(panel.poll_transition(0), None);
    panel.initialize(from.duplicate());
    let mut arena = draggable::GlobalDragState::new();
    let grab = panel.start_drag(draggable::PointData { x: 0, y: 0 }).unwrap();
    arena.start_drag(draggable::DragAreaActiveDragData {
        current_pos: draggable::PointData { x: 0, y: 0 },
        starting_data: grab.drag_origin,
    });
    arena.set_snap_info(Some(to.duplicate()));
    arena.stop_drag();
    panel.update_state(arena.get_drag_state(), from.rect);
    let first = panel.poll_transition(1000).unwrap();
    assert!(!first.finished);
    let mid = panel.poll_transition(1000 + TRANSITION_DURATION_MS / 2).unwrap();
    assert_eq!(mid.current, RectData::new(50, 0, 10, 10));
    let done = panel.poll_transition(1000 + TRANSITION_DURATION_MS).unwrap();
    assert!(done.finished);
    assert_eq!(
        panel.get_drag_state(),
        DraggableStates::Resting(DraggableRestStates::Snapped(DraggableSnapStates::Final(to)))
    );
}

#[test]
fn rescale_with_one_observation_is_identity() {
    let mut grid = GridData::new(8, 2);
    let child = RectData::new(3, 4, 50, 60);
    assert_eq!(grid.get_grid_rect(), None);
    assert_eq!(grid.get_new_child_rect(child), child);
    grid.update_mounted(RectData::new(0, 0, 800, 200));
    assert_eq!(grid.get_grid_rect(), Some(RectData::new(0, 0, 800, 200)));
    assert_eq!(grid.get_new_child_rect(child), child);
    grid.update_mounted(RectData::new(0, 0, 800, 200));
    assert_eq!(grid.get_new_child_rect(child), child);
}

#[test]
fn rescale_scales_size_and_keeps_origin() {
    let mut grid = GridData::new(8, 2);
    grid.update_mounted(RectData::new(0, 0, 800, 200));
    grid.update_mounted(RectData::new(10, 10, 400, 300));
    assert_eq!(grid.get_new_child_rect(RectData::new(3, 4, 100, 60)), RectData::new(3, 4, 50, 90));
    assert_eq!(grid.get_new_child_rect(RectData::new(0, 0, 3, 3)), RectData::new(0, 0, 1, 4));
    grid.update_mounted(RectData::new(0, 0, 0, 600));
    grid.update_mounted(RectData::new(0, 0, 500, 1));
    assert_eq!(grid.get_new_child_rect(RectData::new(0, 0, 7, u64::MAX)), RectData::new(0, 0, 7, u64::MAX / 600));
    let mut wide = GridData::new(1, 1);
    wide.update_mounted(RectData::new(0, 0, 1, 1));
    wide.update_mounted(RectData::new(0, 0, u64::MAX, u64::MAX));
    assert_eq!(wide.get_new_child_rect(RectData::new(0, 0, 2, 1)), RectData::new(0, 0, u64::MAX, u64::MAX));
    let _ = GridState::Initial;
}

#[test]
fn resize_snapped_rescales_registered_snaps_only() {
    let mut grid = GridData::new(8, 2);
    grid.update_mounted(RectData::new(0, 0, 100, 100));
    grid.update_mounted(RectData::new(0, 0, 200, 50));
    let mut panel = LocalDragState::new(DraggableVariants::DOCKED, "p".to_string());
    panel.initialize(snap(5, 5, 10, 10));
    panel.resize_snapped(&grid);
    assert_eq!(
        panel.get_drag_state(),
        DraggableStates::Resting(DraggableRestStates::Snapped(DraggableSnapStates::Final(snap(5, 5, 20, 5))))
    );
    let mut ephemeral = LocalDragState::new(DraggableVariants::DOCKED, "e".to_string());
    ephemeral.initialize(SnapInfo::new(None, RectData::new(5, 5, 10, 10)));
    ephemeral.resize_snapped(&grid);
    assert_eq!(
        ephemeral.get_drag_state(),
        DraggableStates::Resting(DraggableRestStates::Snapped(DraggableSnapStates::Final(SnapInfo::new(
            None,
            RectData::new(5, 5, 10, 10)
        ))))
    );
    let _ = DragAreaStates::Initial;
}
