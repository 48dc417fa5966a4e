use voxel_build::color::PackedColor as Color;
use voxel_build::schematic::{Axis, OutOfBounds, Schematic};

#[test]
fn test_coordinates() {
    let mut schem = Schematic::new(10, 10, 10);
    schem.set(0, 0, 0, Color(0o070)).unwrap();
    schem.set(9, 9, 9, Color(1)).unwrap();

    assert_eq!(schem.get(0, 0, 0).unwrap(), Color(0o070));
    assert_eq!(schem.get(9, 9, 9).unwrap(), Color(1));
}

#[test]
fn test_fill() {
    let mut schem = Schematic::new(10, 10, 10);
    schem.fill(1, 2, 3, 7, 8, 9, Color(1)).unwrap();

    for x in 0..schem.x_size() {
        for y in 0..schem.y_size() {
            for z in 0..schem.z_size() {
                let expected = if (1..=7).contains(&x) &&
                                  (2..=8).contains(&y) &&
                                  (3..=9).contains(&z) {
                    Color(1)
                } else {
                    Color(0)
                };

                assert_eq!(schem.get(x, y, z).unwrap(), expected);
            }
        }
    }
}

#[test]
fn fresh_grid_is_vacant() {
    let schem: Schematic<Color> = Schematic::new(3, 4, 5);
    assert_eq!(schem.sizes(), (3, 4, 5));
    assert_eq!(schem.cells().len(), 60);
    assert!(schem.cells().iter().all(|c| *c == Color(0)));
}

#[test]
fn cells_lie_in_buffer_order() {
    let mut schem = Schematic::new(2, 3, 4);
    let mut n = 0u8;
    for y in 0..3 {
        for z in 0..4 {
            for x in 0..2 {
                n += 1;
                schem.set(x, y, z, Color(n)).unwrap();
                assert_eq!(
                    schem.get_index(x, y, z),
                    Ok((y as usize * 4 + z as usize) * 2 + x as usize)
                );
            }
        }
    }
    let expected: Vec<Color> = (1..=24).map(Color).collect();
    assert_eq!(schem.cells(), &expected[..]);
}

#[test]
fn set_changes_one_cell_only() {
    let mut schem = Schematic::new(4, 5, 6);
    schem.fill(0, 0, 0, 3, 4, 5, Color(9)).unwrap();
    schem.set(2, 3, 4, Color(200)).unwrap();
    for x in 0..4 {
        for y in 0..5 {
            for z in 0..6 {
                let expected = if (x, y, z) == (2, 3, 4) { Color(200) } else { Color(9) };
                assert_eq!(schem.get(x, y, z), Ok(expected));
            }
        }
    }
}

#[test]
fn each_axis_is_checked_alone() {
    let mut schem = Schematic::new(10, 20, 30);
    let x = OutOfBounds { axis: Axis::X, value: 10 };
    let y = OutOfBounds { axis: Axis::Y, value: 20 };
    let z = OutOfBounds { axis: Axis::Z, value: 30 };
    assert_eq!(schem.get(10, 0, 0), Err(x));
    assert_eq!(schem.get(0, 20, 0), Err(y));
    assert_eq!(schem.get(0, 0, 30), Err(z));
    assert_eq!(schem.set(10, 0, 0, Color(1)), Err(x));
    assert_eq!(schem.set(0, 20, 0, Color(1)), Err(y));
    assert_eq!(schem.set(0, 0, 30, Color(1)), Err(z));
    assert_eq!(schem.get_index(10, 0, 0), Err(x));
    assert_eq!(schem.get_index(0, 20, 0), Err(y));
    assert_eq!(schem.get_index(0, 0, 30), Err(z));
    assert_eq!(schem.get(255, 255, 255), Err(OutOfBounds { axis: Axis::X, value: 255 }));
    assert_eq!(schem.get(9, 255, 255), Err(OutOfBounds { axis: Axis::Y, value: 255 }));
    assert_eq!(schem.get(9, 19, 255), Err(OutOfBounds { axis: Axis::Z, value: 255 }));
    assert_eq!(schem.fill(10, 0, 0, 10, 0, 0, Color(1)), Err(x));
    assert_eq!(schem.fill(0, 20, 0, 0, 20, 0, Color(1)), Err(y));
    assert_eq!(schem.fill(0, 0, 30, 0, 0, 30, Color(1)), Err(z));
    assert!(schem.cells().iter().all(|c| *c == Color(0)));
}

#[test]
fn rejected_set_leaves_grid_untouched() {
    let mut schem = Schematic::new(2, 2, 2);
    schem.set(1, 1, 1, Color(5)).unwrap();
    let before: Vec<Color> = schem.cells().to_vec();
    assert!(schem.set(2, 0, 0, Color(7)).is_err());
    assert_eq!(schem.cells(), &before[..]);
}

#[test]
fn fill_stops_at_the_first_cell_outside() {
    // z runs out first: only the start of the first column is written.
    let mut schem = Schematic::new(4, 4, 4);
    assert_eq!(
        schem.fill(1, 1, 1, 5, 5, 5, Color(3)),
        Err(OutOfBounds { axis: Axis::Z, value: 4 })
    );
    for x in 0..4 {
        for y in 0..4 {
            for z in 0..4 {
                let written = x == 1 && y == 1 && z >= 1;
                assert_eq!(schem.get(x, y, z), Ok(if written { Color(3) } else { Color(0) }));
            }
        }
    }

    // y runs out: the first plane is written up to the edge of the grid.
    let mut schem = Schematic::new(4, 4, 4);
    assert_eq!(
        schem.fill(1, 1, 1, 5, 5, 3, Color(3)),
        Err(OutOfBounds { axis: Axis::Y, value: 4 })
    );
    for x in 0..4 {
        for y in 0..4 {
            for z in 0..4 {
                let written = x == 1 && y >= 1 && z >= 1;
                assert_eq!(schem.get(x, y, z), Ok(if written { Color(3) } else { Color(0) }));
            }
        }
    }

    // x runs out: everything of the box inside the grid is written.
    let mut schem = Schematic::new(4, 4, 4);
    assert_eq!(
        schem.fill(1, 1, 1, 5, 3, 3, Color(3)),
        Err(OutOfBounds { axis: Axis::X, value: 4 })
    );
    for x in 0..4 {
        for y in 0..4 {
            for z in 0..4 {
                let written = x >= 1 && y >= 1 && z >= 1;
                assert_eq!(schem.get(x, y, z), Ok(if written { Color(3) } else { Color(0) }));
            }
        }
    }
}

#[test]
fn fill_of_an_empty_box_does_nothing() {
    let mut schem = Schematic::new(4, 4, 4);
    assert_eq!(schem.fill(200, 0, 0, 100, 0, 0, Color(3)), Ok(()));
    assert_eq!(schem.fill(3, 3, 3, 2, 3, 3, Color(3)), Ok(()));
    assert_eq!(schem.fill(0, 9, 0, 3, 8, 3, Color(3)), Ok(()));
    assert!(schem.cells().iter().all(|c| *c == Color(0)));
}

#[test]
fn fill_reaches_the_last_coordinate() {
    let mut schem = Schematic::new(255, 1, 255);
    assert_eq!(schem.fill(0, 0, 0, 254, 0, 254, Color(1)), Ok(()));
    assert!(schem.cells().iter().all(|c| *c == Color(1)));
    assert_eq!(
        schem.fill(0, 0, 0, 255, 255, 255, Color(2)),
        Err(OutOfBounds { axis: Axis::Z, value: 255 })
    );
}

#[test]
fn zero_sized_grid_rejects_everything() {
    let mut schem = Schematic::new(0, 5, 5);
    assert_eq!(schem.cells().len(), 0);
    assert_eq!(schem.get(0, 0, 0), Err(OutOfBounds { axis: Axis::X, value: 0 }));
    assert_eq!(schem.set(0, 0, 0, Color(1)), Err(OutOfBounds { axis: Axis::X, value: 0 }));
    assert_eq!(
        schem.fill(0, 0, 0, 0, 0, 0, Color(1)),
        Err(OutOfBounds { axis: Axis::X, value: 0 })
    );
}

#[test]
fn clone_is_independent() {
    let mut schem = Schematic::new(2, 2, 2);
    schem.set(0, 1, 0, Color(4)).unwrap();
    let copy = schem.clone();
    schem.set(0, 1, 0, Color(5)).unwrap();
    assert_eq!(copy.get(0, 1, 0), Ok(Color(4)));
    assert_eq!(copy.sizes(), (2, 2, 2));
}
