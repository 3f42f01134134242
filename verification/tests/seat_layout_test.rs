use cinema_booking::seat_layout::{flat_idx, from_flat_idx, iter_layout_seats};

#[test]
fn s1_is_top_left_1_based_row_col() {
    let first = iter_layout_seats(3, 5).into_iter().next().unwrap();
    assert_eq!(first.seat_uuid, "s1");
    assert_eq!(first.row, 1);
    assert_eq!(first.col, 1);
}

#[test]
fn flat_and_unflatten_roundtrip() {
    let m = 4_usize;
    assert_eq!(flat_idx(0, 0, m), 0);
    assert_eq!(from_flat_idx(0, m), (0, 0));
    assert_eq!(flat_idx(1, 2, m), 6);
    assert_eq!(from_flat_idx(6, m), (1, 2));
}

#[test]
fn total_seats_matches_dimensions() {
    assert_eq!(iter_layout_seats(2, 3).len(), 6);
}

#[test]
fn zero_seats_per_row_unflattens_to_origin() {
    assert_eq!(from_flat_idx(17, 0), (0, 0));
}

#[test]
fn non_positive_dimensions_give_no_seats() {
    assert!(iter_layout_seats(0, 5).is_empty());
    assert!(iter_layout_seats(4, 0).is_empty());
    assert!(iter_layout_seats(-2, 3).is_empty());
    assert!(iter_layout_seats(3, -1).is_empty());
}

#[test]
fn layout_is_row_major_with_labels() {
    let seats = iter_layout_seats(2, 3);
    let got: Vec<(usize, String, i64, i64)> = seats
        .iter()
        .map(|s| (s.flat_idx, s.seat_uuid.clone(), s.row, s.col))
        .collect();
    assert_eq!(
        got,
        vec![
            (0, "s1".to_string(), 1, 1),
            (1, "s2".to_string(), 1, 2),
            (2, "s3".to_string(), 1, 3),
            (3, "s4".to_string(), 2, 1),
            (4, "s5".to_string(), 2, 2),
            (5, "s6".to_string(), 2, 3),
        ]
    );
}

#[test]
fn every_cell_roundtrips_through_its_index() {
    let m = 7_usize;
    for i in 0..5 {
        for j in 0..m {
            assert_eq!(from_flat_idx(flat_idx(i, j, m), m), (i, j));
        }
    }
}

#[test]
fn seat_ids_are_distinct_and_positions_unique() {
    let seats = iter_layout_seats(4, 12);
    let mut ids: Vec<&String> = seats.iter().map(|s| &s.seat_uuid).collect();
    ids.sort();
    ids.dedup();
    assert_eq!(ids.len(), 48);
    let mut cells: Vec<(i64, i64)> = seats.iter().map(|s| (s.row, s.col)).collect();
    cells.sort();
    cells.dedup();
    assert_eq!(cells.len(), 48);
    assert_eq!(seats[47].seat_uuid, "s48");
    assert_eq!((seats[47].row, seats[47].col), (4, 12));
}
