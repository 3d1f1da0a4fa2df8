use mipidsi::options::orientation::Rotation::{Deg0, Deg180, Deg270, Deg90};
use mipidsi::options::orientation::{InvalidAngleError, MemoryMapping, Orientation, Rotation};

#[test]
fn try_from_degree() {
    let mut expected = [
        Rotation::Deg0,
        Rotation::Deg90,
        Rotation::Deg180,
        Rotation::Deg270,
    ]
    .iter()
    .copied()
    .cycle();

    for angle in (-720..=720).step_by(90) {
        assert_eq!(
            Rotation::try_from_degree(angle).unwrap(),
            expected.next().unwrap(),
            "{angle}"
        );
    }
}

#[test]
fn try_from_degree_error() {
    assert_eq!(Rotation::try_from_degree(1), Err(InvalidAngleError));
    assert_eq!(Rotation::try_from_degree(-1), Err(InvalidAngleError));
    assert_eq!(Rotation::try_from_degree(i32::MIN), Err(InvalidAngleError));
    assert_eq!(Rotation::try_from_degree(i32::MAX), Err(InvalidAngleError));
}

/// Abbreviated constructor for orientations.
fn orientation(rotation: Rotation, mirrored: bool) -> Orientation {
    Orientation { rotation, mirrored }
}

#[test]
fn flip_horizontal() {
    for ((rotation, mirrored), (expected_rotation, expected_mirrored)) in [
        ((Deg0, false), (Deg0, true)),
        ((Deg90, false), (Deg270, true)),
        ((Deg180, false), (Deg180, true)),
        ((Deg270, false), (Deg90, true)),
        ((Deg0, true), (Deg0, false)),
        ((Deg90, true), (Deg270, false)),
        ((Deg180, true), (Deg180, false)),
        ((Deg270, true), (Deg90, false)),
    ]
    .iter()
    .copied()
    {
        assert_eq!(
            orientation(rotation, mirrored).flip_horizontal(),
            orientation(expected_rotation, expected_mirrored)
        );
    }
}

#[test]
fn flip_vertical() {
    for ((rotation, mirrored), (expected_rotation, expected_mirrored)) in [
        ((Deg0, false), (Deg180, true)),
        ((Deg90, false), (Deg90, true)),
        ((Deg180, false), (Deg0, true)),
        ((Deg270, false), (Deg270, true)),
        ((Deg0, true), (Deg180, false)),
        ((Deg90, true), (Deg90, false)),
        ((Deg180, true), (Deg0, false)),
        ((Deg270, true), (Deg270, false)),
    ]
    .iter()
    .copied()
    {
        assert_eq!(
            orientation(rotation, mirrored).flip_vertical(),
            orientation(expected_rotation, expected_mirrored)
        );
    }
}

fn draw_memory_mapping(order: MemoryMapping) -> [[u8; 3]; 3] {
    let mut buffer = [[0u8; 3]; 3];

    let (max_x, max_y) = if order.swap_rows_and_columns {
        (1, 2)
    } else {
        (2, 1)
    };

    let mut i = 1..;
    for y in 0..2 {
        for x in 0..3 {
            let (x, y) = if order.swap_rows_and_columns {
                (y, x)
            } else {
                (x, y)
            };
            let x = if order.reverse_columns { max_x - x } else { x };
            let y = if order.reverse_rows { max_y - y } else { y };

            buffer[y as usize][x as usize] = i.next().unwrap();
        }
    }

    buffer
}

#[test]
fn test_draw_memory_mapping() {
    assert_eq!(
        &draw_memory_mapping(MemoryMapping {
            reverse_rows: false,
            reverse_columns: false,
            swap_rows_and_columns: false,
        }),
        &[
            [1, 2, 3], //
            [4, 5, 6], //
            [0, 0, 0], //
        ]
    );

    assert_eq!(
        &draw_memory_mapping(MemoryMapping {
            reverse_rows: true,
            reverse_columns: false,
            swap_rows_and_columns: false,
        }),
        &[
            [4, 5, 6], //
            [1, 2, 3], //
            [0, 0, 0], //
        ]
    );

    assert_eq!(
        &draw_memory_mapping(MemoryMapping {
            reverse_rows: false,
            reverse_columns: true,
            swap_rows_and_columns: false,
        }),
        &[
            [3, 2, 1], //
            [6, 5, 4], //
            [0, 0, 0], //
        ]
    );

    assert_eq!(
        &draw_memory_mapping(MemoryMapping {
            reverse_rows: true,
            reverse_columns: true,
            swap_rows_and_columns: false,
        }),
        &[
            [6, 5, 4], //
            [3, 2, 1], //
            [0, 0, 0], //
        ]
    );

    assert_eq!(
        &draw_memory_mapping(MemoryMapping {
            reverse_rows: false,
            reverse_columns: false,
            swap_rows_and_columns: true,
        }),
        &[
            [1, 4, 0], //
            [2, 5, 0], //
            [3, 6, 0], //
        ]
    );

    assert_eq!(
        &draw_memory_mapping(MemoryMapping {
            reverse_rows: true,
            reverse_columns: false,
            swap_rows_and_columns: true,
        }),
        &[
            [3, 6, 0], //
            [2, 5, 0], //
            [1, 4, 0], //
        ]
    );

    assert_eq!(
        &draw_memory_mapping(MemoryMapping {
            reverse_rows: false,
            reverse_columns: true,
            swap_rows_and_columns: true,
        }),
        &[
            [4, 1, 0], //
            [5, 2, 0], //
            [6, 3, 0], //
        ]
    );

    assert_eq!(
        &draw_memory_mapping(MemoryMapping {
            reverse_rows: true,
            reverse_columns: true,
            swap_rows_and_columns: true,
        }),
        &[
            [6, 3, 0], //
            [5, 2, 0], //
            [4, 1, 0], //
        ]
    );
}

#[test]
fn into_memory_order_not_mirrored() {
    assert_eq!(
        &draw_memory_mapping(orientation(Rotation::Deg0, false).into()),
        &[
            [1, 2, 3], //
            [4, 5, 6], //
            [0, 0, 0], //
        ]
    );

    assert_eq!(
        &draw_memory_mapping(orientation(Rotation::Deg90, false).into()),
        &[
            [4, 1, 0], //
            [5, 2, 0], //
            [6, 3, 0], //
        ]
    );

    assert_eq!(
        &draw_memory_mapping(orientation(Rotation::Deg180, false).into()),
        &[
            [6, 5, 4], //
            [3, 2, 1], //
            [0, 0, 0], //
        ]
    );

    assert_eq!(
        &draw_memory_mapping(orientation(Rotation::Deg270, false).into()),
        &[
            [3, 6, 0], //
            [2, 5, 0], //
            [1, 4, 0], //
        ]
    );
}

#[test]
fn into_memory_order_mirrored() {
    assert_eq!(
        &draw_memory_mapping(orientation(Rotation::Deg0, true).into()),
        &[
            [3, 2, 1], //
            [6, 5, 4], //
            [0, 0, 0], //
        ]
    );

    assert_eq!(
        &draw_memory_mapping(orientation(Rotation::Deg90, true).into()),
        &[
            [1, 4, 0], //
            [2, 5, 0], //
            [3, 6, 0], //
        ]
    );

    assert_eq!(
        &draw_memory_mapping(orientation(Rotation::Deg180, true).into()),
        &[
            [4, 5, 6], //
            [1, 2, 3], //
            [0, 0, 0], //
        ]
    );

    assert_eq!(
        &draw_memory_mapping(orientation(Rotation::Deg270, true).into()),
        &[
            [6, 3, 0], //
            [5, 2, 0], //
            [4, 1, 0], //
        ]
    );
}

#[test]
fn equivalent_orientations() {
    let o1 = Orientation::new().rotate(Rotation::Deg270).flip_vertical();
    let o2 = Orientation::new().rotate(Rotation::Deg90).flip_horizontal();
    let o3 = Orientation::new()
        .flip_horizontal()
        .rotate(Rotation::Deg270);
    let o4 = Orientation::new().flip_vertical().rotate(Rotation::Deg90);

    assert_eq!(o1, o2);
    assert_eq!(o1, o3);
    assert_eq!(o1, o4);
}
