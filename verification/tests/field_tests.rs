use blocking_io_client::field::{
    face_kind, make_diff, server_row_to_local_x, wall_faces, Direction, FaceKind, FieldGrid,
    WallFace, FIELD_SIZE,
};

fn flat_grid(h: i32) -> FieldGrid {
    FieldGrid::from_heights(vec![h; FIELD_SIZE * FIELD_SIZE]).unwrap()
}

fn grid_with(cells: &[(usize, usize, i32)], base: i32) -> FieldGrid {
    let mut v = vec![base; FIELD_SIZE * FIELD_SIZE];
    for &(x, z, h) in cells {
        v[x * FIELD_SIZE + z] = h;
    }
    FieldGrid::from_heights(v).unwrap()
}

#[test]
fn from_heights_rejects_wrong_length() {
    assert!(FieldGrid::from_heights(vec![0; 10]).is_none());
    assert!(FieldGrid::from_heights(vec![0; FIELD_SIZE * FIELD_SIZE + 1]).is_none());
}

#[test]
fn from_heights_rejects_negative_height() {
    let mut v = vec![0; FIELD_SIZE * FIELD_SIZE];
    v[5] = -1;
    assert!(FieldGrid::from_heights(v).is_none());
}

#[test]
fn new_grid_is_flat_zero() {
    let g = FieldGrid::new();
    for x in 0..FIELD_SIZE {
        for z in 0..FIELD_SIZE {
            assert_eq!(g.height(x, z), 0);
        }
    }
}

#[test]
fn flat_zero_field_has_all_zero_diffs() {
    let g = flat_grid(0);
    let d = make_diff(&g);
    for x in 0..FIELD_SIZE {
        for z in 0..FIELD_SIZE {
            assert_eq!(d.delta(x, z, Direction::Up), 0);
            assert_eq!(d.delta(x, z, Direction::Down), 0);
            assert_eq!(d.delta(x, z, Direction::Left), 0);
            assert_eq!(d.delta(x, z, Direction::Right), 0);
        }
    }
}

#[test]
fn flat_field_has_zero_interior_diffs_and_walls_only_outward() {
    let g = flat_grid(4);
    let d = make_diff(&g);
    for x in 0..FIELD_SIZE {
        for z in 0..FIELD_SIZE {
            // A diff is 4 exactly where the neighbor falls off the grid.
            assert_eq!(d.delta(x, z, Direction::Up), if x == FIELD_SIZE - 1 { 4 } else { 0 });
            assert_eq!(d.delta(x, z, Direction::Down), if x == 0 { 4 } else { 0 });
            assert_eq!(d.delta(x, z, Direction::Left), if z == 0 { 4 } else { 0 });
            assert_eq!(d.delta(x, z, Direction::Right), if z == FIELD_SIZE - 1 { 4 } else { 0 });
        }
    }
}

#[test]
fn raised_cell_walls_all_four_sides() {
    // Cell (5, 7) stands 6 above its neighbors (base 2, raised to 8).
    let g = grid_with(&[(5, 7, 8)], 2);
    let d = make_diff(&g);
    assert_eq!(d.delta(5, 7, Direction::Up), 6);
    assert_eq!(d.delta(5, 7, Direction::Down), 6);
    assert_eq!(d.delta(5, 7, Direction::Left), 6);
    assert_eq!(d.delta(5, 7, Direction::Right), 6);
    // Each neighbor's diff back toward the raised cell is negative.
    assert_eq!(d.delta(6, 7, Direction::Down), -6);
    assert_eq!(d.delta(4, 7, Direction::Up), -6);
    assert_eq!(d.delta(5, 6, Direction::Right), -6);
    assert_eq!(d.delta(5, 8, Direction::Left), -6);
}

#[test]
fn opposite_diffs_never_both_positive() {
    let g = grid_with(&[(3, 3, 5), (3, 4, 2), (10, 10, 1)], 0);
    let d = make_diff(&g);
    for x in 0..FIELD_SIZE {
        for z in 0..FIELD_SIZE - 1 {
            let right = d.delta(x, z, Direction::Right);
            let left_back = d.delta(x, z + 1, Direction::Left);
            assert_eq!(right, -left_back);
            assert!(!(right > 0 && left_back > 0));
        }
    }
    for x in 0..FIELD_SIZE - 1 {
        for z in 0..FIELD_SIZE {
            let up = d.delta(x, z, Direction::Up);
            let down_back = d.delta(x + 1, z, Direction::Down);
            assert_eq!(up, -down_back);
            assert!(!(up > 0 && down_back > 0));
        }
    }
}

#[test]
fn face_kind_classifies_step_heights() {
    assert_eq!(face_kind(1), FaceKind::SafeLedge);
    assert_eq!(face_kind(2), FaceKind::DangerousDrop);
    assert_eq!(face_kind(100), FaceKind::DangerousDrop);
}

#[test]
fn wall_faces_of_flat_zero_field_is_empty() {
    let g = flat_grid(0);
    let d = make_diff(&g);
    assert!(wall_faces(&g, &d).is_empty());
}

#[test]
fn wall_faces_lists_each_exposed_side_once_with_classification() {
    // One cell of height 1 (a safe ledge all around) and one of height 3
    // (a lethal drop all around).
    let g = grid_with(&[(2, 2, 1), (9, 9, 3)], 0);
    let d = make_diff(&g);
    let faces = wall_faces(&g, &d);
    assert_eq!(faces.len(), 8);
    let safe: Vec<&WallFace> = faces.iter().filter(|f| f.x == 2 && f.z == 2).collect();
    assert_eq!(safe.len(), 4);
    for f in &safe {
        assert_eq!(f.top, 1);
        assert_eq!(f.drop, 1);
        assert_eq!(f.kind, FaceKind::SafeLedge);
    }
    let lethal: Vec<&WallFace> = faces.iter().filter(|f| f.x == 9 && f.z == 9).collect();
    assert_eq!(lethal.len(), 4);
    for f in &lethal {
        assert_eq!(f.top, 3);
        assert_eq!(f.drop, 3);
        assert_eq!(f.kind, FaceKind::DangerousDrop);
    }
    // Cells in row-major order, directions in the fixed order.
    assert_eq!(faces[0].dir, Direction::Up);
    assert_eq!(faces[1].dir, Direction::Down);
    assert_eq!(faces[2].dir, Direction::Left);
    assert_eq!(faces[3].dir, Direction::Right);
    assert!(faces[0].x == 2 && faces[4].x == 9);
}

#[test]
fn opposite_directions_pair_up() {
    assert_eq!(Direction::Up.opposite(), Direction::Down);
    assert_eq!(Direction::Down.opposite(), Direction::Up);
    assert_eq!(Direction::Left.opposite(), Direction::Right);
    assert_eq!(Direction::Right.opposite(), Direction::Left);
    for d in [Direction::Up, Direction::Down, Direction::Left, Direction::Right] {
        assert_eq!(d.opposite().opposite(), d);
    }
}

#[test]
fn row_transform_mirrors_and_is_self_inverse() {
    assert_eq!(server_row_to_local_x(0), FIELD_SIZE as i32 - 1);
    assert_eq!(server_row_to_local_x(FIELD_SIZE as i32 - 1), 0);
    assert_eq!(server_row_to_local_x(13), 18);
    for row in 0..FIELD_SIZE as i32 {
        assert_eq!(server_row_to_local_x(server_row_to_local_x(row)), row);
    }
}
