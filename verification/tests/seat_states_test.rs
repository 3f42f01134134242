use cinema_booking::db::entities::bookings::{Booking, BookingStatus};
use cinema_booking::db::entities::movies::Movie;
use cinema_booking::seat_layout::iter_layout_seats;
use cinema_booking::seat_states::{
    escape_html_attr, merge_movie_seats, row_label, seat_grid_element_html, seat_grid_error_html,
    state_for_cell, SeatStateDto, SeatStateKind, AISLE_HTML,
};
use cinema_booking::store_port::{SeatReservationSession, SeatReservationStatus};

fn movie(rows: i64, cols: i64) -> Movie {
    Movie {
        id: 3,
        slug: "film-3".to_string(),
        title: "Film <3>".to_string(),
        movie_time: "now".to_string(),
        row_count: rows,
        seats_per_row: cols,
    }
}

fn booking(seat: &str) -> Booking {
    Booking {
        id: 1,
        uuid: "b".to_string(),
        movie_uuid: "film-3".to_string(),
        seat_uuid: seat.to_string(),
        user_uuid: "u".to_string(),
        status: BookingStatus::Confirmed,
    }
}

fn session(seat: &str, user: &str) -> SeatReservationSession {
    SeatReservationSession {
        session_uuid: "x".to_string(),
        movie_slug: "film-3".to_string(),
        seat_uuid: seat.to_string(),
        user_uuid: user.to_string(),
        status: SeatReservationStatus::Held,
        expires_at: 0,
    }
}

#[test]
fn row_labels() {
    assert_eq!(row_label(1), "A");
    assert_eq!(row_label(26), "Z");
    assert_eq!(row_label(27), "AA");
    assert_eq!(row_label(52), "AZ");
    assert_eq!(row_label(53), "BA");
    assert_eq!(row_label(702), "ZZ");
    assert_eq!(row_label(703), "AAA");
    assert_eq!(row_label(0), "?");
    assert_eq!(row_label(-5), "?");
}

#[test]
fn html_attribute_escaping() {
    assert_eq!(escape_html_attr(r#"a&b"c<d>e'"#), "a&amp;b&quot;c&lt;d>e'");
    assert_eq!(escape_html_attr(""), "");
    assert!(!escape_html_attr("\"<\"<").contains(['"', '<']));
}

#[test]
fn cell_states() {
    let cells = iter_layout_seats(1, 3);
    let bookings = vec![booking("s1")];
    let sessions = vec![session("s1", "v"), session("s2", "v"), session("s3", "w"), session("s3", "v")];
    assert_eq!(state_for_cell(&cells[0], &bookings, &sessions, "v"), SeatStateKind::Confirmed);
    assert_eq!(state_for_cell(&cells[1], &bookings, &sessions, "v"), SeatStateKind::YourHold);
    assert_eq!(state_for_cell(&cells[1], &bookings, &sessions, ""), SeatStateKind::OtherHold);
    assert_eq!(state_for_cell(&cells[1], &bookings, &sessions, "w"), SeatStateKind::OtherHold);
    assert_eq!(state_for_cell(&cells[2], &bookings, &sessions, "v"), SeatStateKind::YourHold);
    assert_eq!(state_for_cell(&cells[2], &vec![], &vec![], "v"), SeatStateKind::Available);
}

#[test]
fn merge_gives_one_state_per_seat() {
    let m = movie(2, 3);
    let r = merge_movie_seats(&m, "v", &vec![booking("s4")], &vec![session("s2", "v"), session("s6", "z")]);
    assert_eq!(r.id, 3);
    assert_eq!(r.slug, "film-3");
    assert_eq!((r.row_count, r.seats_per_row), (2, 3));
    let states: Vec<SeatStateKind> = r.seats.iter().map(|s| s.state).collect();
    assert_eq!(
        states,
        vec![
            SeatStateKind::Available,
            SeatStateKind::YourHold,
            SeatStateKind::Available,
            SeatStateKind::Confirmed,
            SeatStateKind::Available,
            SeatStateKind::OtherHold,
        ]
    );
    assert_eq!((r.seats[4].row, r.seats[4].col), (2, 2));
}

#[test]
fn error_fragment() {
    assert_eq!(
        seat_grid_error_html("Film \"x\" not found."),
        r#"<div id="seatGrid" role="alert" class="alert alert-error w-full max-w-xl">Film &quot;x&quot; not found.</div>"#
    );
}

#[test]
fn grid_fragment_structure() {
    let m = movie(2, 8);
    let r = merge_movie_seats(&m, "", &vec![], &vec![]);
    let html = seat_grid_element_html(&m, &r.seats);
    assert!(html.starts_with(r#"<div id="seatGrid" class="w-max max-w-full" role="group" aria-label="Film &lt;3> seat map with 2 rows and 8 seats per row">"#));
    assert!(html.ends_with("</div></div></div>"));
    assert_eq!(html.matches("<button").count(), 16);
    assert_eq!(html.matches(AISLE_HTML).count(), 2);
    assert!(html.contains(r#"data-seat="s9" data-state="available" aria-label="Row B, Seat 1, available""#));
}

#[test]
fn grid_rows_sorted_by_column_and_unknown_rows_dropped() {
    let m = movie(1, 3);
    let seats = vec![
        SeatStateDto { seat_uuid: "c".to_string(), row: 1, col: 3, state: SeatStateKind::Confirmed },
        SeatStateDto { seat_uuid: "a".to_string(), row: 1, col: 1, state: SeatStateKind::YourHold },
        SeatStateDto { seat_uuid: "z".to_string(), row: 9, col: 1, state: SeatStateKind::Available },
        SeatStateDto { seat_uuid: "b".to_string(), row: 1, col: 2, state: SeatStateKind::OtherHold },
    ];
    let html = seat_grid_element_html(&m, &seats);
    let a = html.find("data-seat=\"a\"").unwrap();
    let b = html.find("data-seat=\"b\"").unwrap();
    let c = html.find("data-seat=\"c\"").unwrap();
    assert!(a < b && b < c);
    assert!(!html.contains("data-seat=\"z\""));
    assert!(html.contains("aria-label=\"Row A, Seat 2, held by another viewer\""));
    assert!(html.contains("data-state=\"confirmed\""));
}

#[test]
fn grid_with_no_rows() {
    let m = movie(-1, -4);
    let html = seat_grid_element_html(&m, &[]);
    assert!(html.contains("seat map with 0 rows and 0 seats per row"));
    assert!(!html.contains("<button"));
}
