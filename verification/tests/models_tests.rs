use snake_game::draw::{terminal_size_to_board_size, SnakeShape};
use snake_game::models::Point;

#[test]
fn random_points_stay_in_bounds() {
    for _ in 0..200 {
        let p = Point::new_random(13, 11);
        assert!(0 <= p.x && p.x < 13);
        assert!(0 <= p.y && p.y < 11);
    }
}

#[test]
fn center_point_halves_both_axes() {
    let p = Point::new_center(120, 41);
    assert_eq!((p.x, p.y), (60, 20));
    let p = Point::new_center(0, 0);
    assert_eq!((p.x, p.y), (0, 0));
}

#[test]
fn point_new_keeps_coordinates() {
    let p = Point::new(-3, 9);
    assert_eq!((p.x, p.y), (-3, 9));
}

#[test]
fn board_size_accounts_for_borders_and_half_blocks() {
    assert_eq!(terminal_size_to_board_size((80, 24)), (78, 44));
    assert_eq!(terminal_size_to_board_size((2, 2)), (0, 0));
}

#[test]
fn snake_shape_keeps_the_cells() {
    let cells = vec![Point::new(1, 2), Point::new(1, 1)];
    let shape = SnakeShape::new(cells.clone());
    assert_eq!(shape.points().len(), 2);
    assert_eq!((shape.points()[0].x, shape.points()[0].y), (1, 2));
    assert_eq!((shape.points()[1].x, shape.points()[1].y), (1, 1));
}
