use sena::motion::{default_position_in_work_area, restore_position, DragState, Position, WorkArea};

#[test]
fn default_position_uses_bottom_right_margin() {
    let work_area = WorkArea { left: 0, top: 0, right: 1920, bottom: 1040 };
    let position = default_position_in_work_area(work_area, 220, 240, 28);
    assert_eq!(position, Position { x: 1672, y: 772 });
}

#[test]
fn default_position_stays_inside_small_work_area() {
    let work_area = WorkArea { left: 100, top: 50, right: 260, bottom: 200 };
    let position = default_position_in_work_area(work_area, 220, 240, 28);
    assert_eq!(position, Position { x: 100, y: 50 });
}

#[test]
fn restored_positions_are_pulled_back_on_screen() {
    let area = WorkArea { left: 0, top: 0, right: 1920, bottom: 1040 };
    assert_eq!(
        restore_position(Position { x: 5000, y: -40 }, Some(area), 220, 240),
        Position { x: 1700, y: 0 }
    );
    assert_eq!(
        restore_position(Position { x: 321, y: 654 }, Some(area), 220, 240),
        Position { x: 321, y: 654 }
    );
    assert_eq!(
        restore_position(Position { x: 5000, y: -40 }, None, 220, 240),
        Position { x: 5000, y: -40 }
    );
}

#[test]
fn dragging_follows_the_cursor_inside_the_work_area() {
    let area = WorkArea { left: 0, top: 0, right: 1000, bottom: 800 };
    let mut drag = DragState::new();
    assert_eq!(drag.target(Position { x: 10, y: 10 }, Some(area), 100, 100), None);
    drag.start(Position { x: 150, y: 130 }, Position { x: 100, y: 100 });
    assert_eq!(
        drag.target(Position { x: 500, y: 400 }, Some(area), 100, 100),
        Some(Position { x: 450, y: 370 })
    );
    assert_eq!(
        drag.target(Position { x: 2000, y: -5 }, Some(area), 100, 100),
        Some(Position { x: 900, y: 0 })
    );
    assert_eq!(
        drag.target(Position { x: 2000, y: -5 }, None, 100, 100),
        Some(Position { x: 1950, y: -35 })
    );
    drag.end();
    assert!(!drag.dragging);
}
