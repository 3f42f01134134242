//! Per-seat state of the public seat map (merging bookings and holds) and its HTML
//! rendering.

use vstd::prelude::*;
use crate::db::entities::bookings::Booking;
use crate::db::entities::movies::Movie;
use crate::seat_layout::{LayoutSeat, iter_layout_seats, is_layout_seat, layout_dim, layout_total, seat_label};
use crate::store_port::SeatReservationSession;
use crate::text::{int_text, push_char, push_str, str_eq, to_chars};

verus! {

/// UI / JSON state for one seat on the map.
#[derive(Debug, Clone, Copy, PartialEq, Eq, Structural)]
pub enum SeatStateKind {
    Available,
    YourHold,
    OtherHold,
    Confirmed,
}

/// One seat of the map: id, 1-based position and state.
#[derive(Debug)]
pub struct SeatStateDto {
    pub seat_uuid: String,
    pub row: i64,
    pub col: i64,
    pub state: SeatStateKind,
}

impl Clone for SeatStateDto {
    fn clone(&self) -> (r: Self)
        ensures
            r == *self,
    {
        SeatStateDto { seat_uuid: self.seat_uuid.clone(), row: self.row, col: self.col, state: self.state }
    }
}

/// Movie metadata plus the flat seat list.
#[derive(Debug)]
pub struct MovieSeatsResponse {
    pub id: i64,
    pub slug: String,
    pub title: String,
    pub row_count: i64,
    pub seats_per_row: i64,
    pub seats: Vec<SeatStateDto>,
}

/// Some booking holds `seat`.
pub open spec fn seat_booked(bookings: Seq<Booking>, seat: Seq<char>) -> bool {
    exists|i: int| 0 <= i < bookings.len() && (#[trigger] bookings[i]).seat_uuid@ == seat
}

/// The last session in `sessions` for `seat` (a later session for the same seat
/// replaces an earlier one).
pub open spec fn last_session_for(sessions: Seq<SeatReservationSession>, seat: Seq<char>) -> Option<SeatReservationSession>
    decreases sessions.len(),
{
    if sessions.len() == 0 {
        None
    } else if sessions.last().seat_uuid@ == seat {
        Some(sessions.last())
    } else {
        last_session_for(sessions.drop_last(), seat)
    }
}

/// State of one seat: booked seats are confirmed; otherwise a hold is the viewer's
/// own when the viewer id is non-empty and owns it, else another viewer's; otherwise
/// the seat is available.
pub open spec fn spec_state_for_seat(seat: Seq<char>, bookings: Seq<Booking>, sessions: Seq<SeatReservationSession>, viewer: Seq<char>) -> SeatStateKind {
    if seat_booked(bookings, seat) {
        SeatStateKind::Confirmed
    } else {
        match last_session_for(sessions, seat) {
            Some(s) => if viewer.len() > 0 && s.user_uuid@ == viewer {
                SeatStateKind::YourHold
            } else {
                SeatStateKind::OtherHold
            },
            None => SeatStateKind::Available,
        }
    }
}

fn seat_is_booked(bookings: &Vec<Booking>, seat: &str) -> (r: bool)
    ensures
        r == seat_booked(bookings@, seat@),
{
    let mut i: usize = 0;
    while i < bookings.len()
        invariant
            i <= bookings@.len(),
            forall|k: int| 0 <= k < i ==> (#[trigger] bookings@[k]).seat_uuid@ != seat@,
        decreases bookings@.len() - i,
    {
        if str_eq(bookings[i].seat_uuid.as_str(), seat) {
            assert((bookings@[i as int]).seat_uuid@ == seat@);
            return true;
        }
        i = i + 1;
    }
    false
}

fn find_last_session(sessions: &Vec<SeatReservationSession>, seat: &str) -> (r: Option<usize>)
    ensures
        r is None <==> last_session_for(sessions@, seat@) is None,
        r matches Some(i) ==> i < sessions@.len() && last_session_for(sessions@, seat@) == Some(sessions@[i as int]),
{
    let mut i: usize = sessions.len();
    assert(sessions@.take(i as int) =~= sessions@);
    while i > 0
        invariant
            i <= sessions@.len(),
            last_session_for(sessions@, seat@) == last_session_for(sessions@.take(i as int), seat@),
        decreases i,
    {
        assert(sessions@.take(i as int).drop_last() =~= sessions@.take(i - 1));
        if str_eq(sessions[i - 1].seat_uuid.as_str(), seat) {
            return Some(i - 1);
        }
        i = i - 1;
    }
    None
}

/// State of a layout cell given the movie's bookings, held sessions and the viewer.
pub fn state_for_cell(cell: &LayoutSeat, bookings: &Vec<Booking>, sessions: &Vec<SeatReservationSession>, viewer_user_id: &str) -> (r: SeatStateKind)
    ensures
        r == spec_state_for_seat(cell.seat_uuid@, bookings@, sessions@, viewer_user_id@),
{
    if seat_is_booked(bookings, cell.seat_uuid.as_str()) {
        return SeatStateKind::Confirmed;
    }
    match find_last_session(sessions, cell.seat_uuid.as_str()) {
        Some(i) => {
            if viewer_user_id.unicode_len() > 0 && str_eq(sessions[i].user_uuid.as_str(), viewer_user_id) {
                SeatStateKind::YourHold
            } else {
                SeatStateKind::OtherHold
            }
        },
        None => SeatStateKind::Available,
    }
}

/// The seat list row `k` of a movie's merged seat map must show.
pub open spec fn is_merged_seat(d: SeatStateDto, k: int, m: int, bookings: Seq<Booking>, sessions: Seq<SeatReservationSession>, viewer: Seq<char>) -> bool {
    &&& d.seat_uuid@ == seat_label(k)
    &&& d.row == k / m + 1
    &&& d.col == k % m + 1
    &&& d.state == spec_state_for_seat(seat_label(k), bookings, sessions, viewer)
}

/// Merges a movie's bookings and held sessions into one state per layout seat, in
/// layout order, with the movie's metadata.
pub fn merge_movie_seats(movie: &Movie, viewer_user_id: &str, bookings: &Vec<Booking>, sessions: &Vec<SeatReservationSession>) -> (r: MovieSeatsResponse)
    ensures
        r.id == movie.id,
        r.slug == movie.slug,
        r.title == movie.title,
        r.row_count == movie.row_count,
        r.seats_per_row == movie.seats_per_row,
        r.seats@.len() == layout_total(movie.row_count, movie.seats_per_row),
        forall|k: int| 0 <= k < r.seats@.len() ==> is_merged_seat(#[trigger] r.seats@[k], k, layout_dim(movie.seats_per_row), bookings@, sessions@, viewer_user_id@),
{
    let cells = iter_layout_seats(movie.row_count, movie.seats_per_row);
    let mut seats: Vec<SeatStateDto> = Vec::new();
    let mut i: usize = 0;
    while i < cells.len()
        invariant
            i <= cells@.len(),
            cells@.len() == layout_total(movie.row_count, movie.seats_per_row),
            forall|k: int| 0 <= k < cells@.len() ==> is_layout_seat(#[trigger] cells@[k], k, layout_dim(movie.seats_per_row)),
            seats@.len() == i,
            forall|k: int| 0 <= k < i ==> is_merged_seat(#[trigger] seats@[k], k, layout_dim(movie.seats_per_row), bookings@, sessions@, viewer_user_id@),
        decreases cells@.len() - i,
    {
        let cell = &cells[i];
        assert(is_layout_seat(cells@[i as int], i as int, layout_dim(movie.seats_per_row)));
        let state = state_for_cell(cell, bookings, sessions, viewer_user_id);
        seats.push(SeatStateDto { seat_uuid: cell.seat_uuid.clone(), row: cell.row, col: cell.col, state });
        i = i + 1;
    }
    MovieSeatsResponse {
        id: movie.id,
        slug: movie.slug.clone(),
        title: movie.title.clone(),
        row_count: movie.row_count,
        seats_per_row: movie.seats_per_row,
        seats,
    }
}

/// A booked seat shows as confirmed, whatever holds exist and whoever views it.
pub proof fn lemma_booked_seat_is_confirmed(seat: Seq<char>, bookings: Seq<Booking>, sessions: Seq<SeatReservationSession>, viewer: Seq<char>)
    requires
        seat_booked(bookings, seat),
    ensures
        spec_state_for_seat(seat, bookings, sessions, viewer) == SeatStateKind::Confirmed,
{
}

/// Without a viewer id no seat shows as the viewer's own hold.
pub proof fn lemma_anonymous_viewer_sees_no_own_hold(seat: Seq<char>, bookings: Seq<Booking>, sessions: Seq<SeatReservationSession>)
    ensures
        spec_state_for_seat(seat, bookings, sessions, Seq::empty()) != SeatStateKind::YourHold,
{
}

/// `last_session_for` finds a session for the seat exactly when one exists.
pub proof fn lemma_last_session_for(sessions: Seq<SeatReservationSession>, seat: Seq<char>)
    ensures
        last_session_for(sessions, seat) is Some <==> exists|i: int| 0 <= i < sessions.len() && (#[trigger] sessions[i]).seat_uuid@ == seat,
        last_session_for(sessions, seat) matches Some(s) ==> s.seat_uuid@ == seat && sessions.contains(s),
    decreases sessions.len(),
{
    if sessions.len() > 0 {
        let init = sessions.drop_last();
        lemma_last_session_for(init, seat);
        if sessions.last().seat_uuid@ != seat {
            assert forall|i: int| 0 <= i < sessions.len() && (#[trigger] sessions[i]).seat_uuid@ == seat implies
                exists|j: int| 0 <= j < init.len() && (#[trigger] init[j]).seat_uuid@ == seat by {
                assert(init[i] == sessions[i]);
            }
            if last_session_for(init, seat) is Some {
                let j = choose|j: int| 0 <= j < init.len() && (#[trigger] init[j]).seat_uuid@ == seat;
                assert(sessions[j] == init[j]);
                let s = last_session_for(init, seat)->0;
                let k = choose|k: int| 0 <= k < init.len() && init[k] == s;
                assert(sessions[k] == s);
            }
        } else {
            assert(sessions[sessions.len() - 1] == sessions.last());
        }
    }
}

/// A seat's shown state is decided by the bookings and sessions that carry exactly its
/// id: it shows booked exactly when some booking carries the id; with neither a booking
/// nor a session carrying the id it shows available; a held seat has a session with
/// the id, and shows as the viewer's own only when the viewer id is non-empty and such
/// a session is the viewer's. Bookings and sessions of other seats never change it.
pub proof fn lemma_state_follows_exact_seat_id(seat: Seq<char>, bookings: Seq<Booking>, sessions: Seq<SeatReservationSession>, viewer: Seq<char>)
    ensures
        (spec_state_for_seat(seat, bookings, sessions, viewer) == SeatStateKind::Confirmed) <==> exists|i: int|
            0 <= i < bookings.len() && (#[trigger] bookings[i]).seat_uuid@ == seat,
        (spec_state_for_seat(seat, bookings, sessions, viewer) == SeatStateKind::Available) <==> {
            &&& forall|i: int| 0 <= i < bookings.len() ==> (#[trigger] bookings[i]).seat_uuid@ != seat
            &&& forall|j: int| 0 <= j < sessions.len() ==> (#[trigger] sessions[j]).seat_uuid@ != seat
        },
        spec_state_for_seat(seat, bookings, sessions, viewer) == SeatStateKind::YourHold ==> {
            &&& viewer.len() > 0
            &&& exists|j: int| 0 <= j < sessions.len() && (#[trigger] sessions[j]).seat_uuid@ == seat && sessions[j].user_uuid@ == viewer
        },
        spec_state_for_seat(seat, bookings, sessions, viewer) == SeatStateKind::OtherHold ==> exists|j: int|
            0 <= j < sessions.len() && (#[trigger] sessions[j]).seat_uuid@ == seat,
        ({
            &&& forall|i: int| 0 <= i < bookings.len() ==> (#[trigger] bookings[i]).seat_uuid@ != seat
            &&& exists|j: int| 0 <= j < sessions.len() && (#[trigger] sessions[j]).seat_uuid@ == seat
            &&& viewer.len() > 0
            &&& forall|j: int| 0 <= j < sessions.len() && (#[trigger] sessions[j]).seat_uuid@ == seat ==> sessions[j].user_uuid@ == viewer
        }) ==> spec_state_for_seat(seat, bookings, sessions, viewer) == SeatStateKind::YourHold,
        ({
            &&& forall|i: int| 0 <= i < bookings.len() ==> (#[trigger] bookings[i]).seat_uuid@ != seat
            &&& exists|j: int| 0 <= j < sessions.len() && (#[trigger] sessions[j]).seat_uuid@ == seat
            &&& forall|j: int| 0 <= j < sessions.len() && (#[trigger] sessions[j]).seat_uuid@ == seat ==> sessions[j].user_uuid@ != viewer
        }) ==> spec_state_for_seat(seat, bookings, sessions, viewer) == SeatStateKind::OtherHold,
{
    lemma_last_session_for(sessions, seat);
    if !seat_booked(bookings, seat) {
        if let Some(s) = last_session_for(sessions, seat) {
            let k = choose|k: int| 0 <= k < sessions.len() && sessions[k] == s;
            assert(sessions[k].seat_uuid@ == seat);
        }
    }
}

/// A seat held by a non-empty viewer id, and not booked, shows as that viewer's hold
/// when the viewer owns the seat's latest session, and as another viewer's otherwise.
pub proof fn lemma_hold_visibility(seat: Seq<char>, bookings: Seq<Booking>, sessions: Seq<SeatReservationSession>, viewer: Seq<char>)
    requires
        !seat_booked(bookings, seat),
        exists|i: int| 0 <= i < sessions.len() && (#[trigger] sessions[i]).seat_uuid@ == seat,
    ensures
        last_session_for(sessions, seat) is Some,
        viewer.len() > 0 && last_session_for(sessions, seat)->0.user_uuid@ == viewer ==> spec_state_for_seat(seat, bookings, sessions, viewer) == SeatStateKind::YourHold,
        !(viewer.len() > 0 && last_session_for(sessions, seat)->0.user_uuid@ == viewer) ==> spec_state_for_seat(seat, bookings, sessions, viewer) == SeatStateKind::OtherHold,
{
    lemma_last_session_for(sessions, seat);
}


pub const BUTTON_OPEN: &'static str = r#"<button type="button" class="flex h-10 w-10 shrink-0 items-center justify-center rounded-t-md rounded-b-sm border transition-all duration-200 focus-visible:outline-none focus-visible:ring-2 focus-visible:ring-primary/70 focus-visible:ring-offset-2 focus-visible:ring-offset-base-100 "#;
pub const BUTTON_SEAT: &'static str = r#"" data-seat=""#;
pub const BUTTON_STATE: &'static str = r#"" data-state=""#;
pub const BUTTON_ARIA: &'static str = r#"" aria-label=""#;
pub const BUTTON_INNER: &'static str = r#""><span class="h-2 w-3 rounded-sm "#;
pub const BUTTON_CLOSE: &'static str = r#" opacity-90" aria-hidden="true"></span></button>"#;
pub const AISLE_HTML: &'static str = r#"<span class="mx-1 hidden h-10 w-4 rounded bg-base-300/35 sm:inline-block" aria-hidden="true"></span>"#;
pub const ROW_OPEN: &'static str = r#"<div class="flex w-max max-w-full min-w-0 items-stretch gap-2 rounded-xl border border-base-300/50 bg-base-200/40 px-2 py-2 sm:gap-3 sm:px-3"><div class="flex w-9 shrink-0 items-center justify-center self-stretch rounded-lg border border-base-300/60 bg-base-100/90 font-display text-sm font-bold tabular-nums text-base-content/80 shadow-sm" aria-hidden="true">"#;
pub const ROW_SEATS: &'static str = r#"</div><div class="flex flex-nowrap items-center justify-start gap-1.5 sm:gap-2">"#;
pub const ROW_CLOSE: &'static str = r#"</div></div>"#;
pub const GRID_OPEN: &'static str = r#"<div id="seatGrid" class="w-max max-w-full" role="group" aria-label=""#;
pub const GRID_ROWS: &'static str = r#""><div class="w-full rounded-box border border-base-300/60 bg-base-100/70 px-2 py-3 sm:px-4"><div class="flex w-full flex-col items-stretch gap-2 sm:gap-2.5">"#;
pub const GRID_CLOSE: &'static str = r#"</div></div></div>"#;
pub const ERROR_OPEN: &'static str = r#"<div id="seatGrid" role="alert" class="alert alert-error w-full max-w-xl">"#;
pub const ERROR_CLOSE: &'static str = r#"</div>"#;

/// HTML-attribute escape of one character.
pub open spec fn escape_char(c: char) -> Seq<char> {
    if c == '&' {
        "&amp;"@
    } else if c == '"' {
        "&quot;"@
    } else if c == '<' {
        "&lt;"@
    } else {
        seq![c]
    }
}

/// HTML-attribute escape of a text: `&`, `"` and `<` become entities.
pub open spec fn escape_html(s: Seq<char>) -> Seq<char>
    decreases s.len(),
{
    if s.len() == 0 {
        Seq::empty()
    } else {
        escape_html(s.drop_last()) + escape_char(s.last())
    }
}

/// Escapes `&`, `"` and `<` for use inside a double-quoted HTML attribute.
pub fn escape_html_attr(s: &str) -> (r: String)
    ensures
        r@ == escape_html(s@),
{
    let chars = to_chars(s);
    let mut out = String::new();
    let mut i: usize = 0;
    while i < chars.len()
        invariant
            i <= chars@.len(),
            chars@ == s@,
            out@ == escape_html(chars@.take(i as int)),
        decreases chars@.len() - i,
    {
        let c = chars[i];
        assert(chars@.take(i + 1).drop_last() =~= chars@.take(i as int));
        if c == '&' {
            push_str(&mut out, "&amp;");
        } else if c == '"' {
            push_str(&mut out, "&quot;");
        } else if c == '<' {
            push_str(&mut out, "&lt;");
        } else {
            push_char(&mut out, c);
            assert(seq![c] =~= Seq::<char>::empty().push(c));
        }
        i = i + 1;
        assert(out@ =~= escape_html(chars@.take(i as int)));
    }
    assert(chars@.take(i as int) =~= chars@);
    out
}

/// Escaped text holds no `"` and no `<`.
pub proof fn lemma_escape_html_safe(s: Seq<char>)
    ensures
        forall|i: int| 0 <= i < escape_html(s).len() ==> #[trigger] escape_html(s)[i] != '"' && escape_html(s)[i] != '<',
    decreases s.len(),
{
    reveal_strlit("&amp;");
    reveal_strlit("&quot;");
    reveal_strlit("&lt;");
    if s.len() > 0 {
        lemma_escape_html_safe(s.drop_last());
        let a = escape_html(s.drop_last());
        let b = escape_char(s.last());
        assert forall|i: int| 0 <= i < escape_html(s).len() implies #[trigger] escape_html(s)[i] != '"' && escape_html(s)[i] != '<' by {
            if i < a.len() {
                assert(escape_html(s)[i] == a[i]);
            } else {
                assert(escape_html(s)[i] == b[i - a.len()]);
            }
        }
    }
}

/// The capital letter for `d < 26` (`A` for 0).
pub open spec fn letter(d: nat) -> char {
    (65 + d) as char
}

/// Bijective base-26 letters of a positive number: 1 → `A`, 26 → `Z`, 27 → `AA`.
pub open spec fn row_letters(n: nat) -> Seq<char>
    decreases n,
{
    if n == 0 {
        Seq::empty()
    } else {
        row_letters(((n - 1) / 26) as nat).push(letter(((n - 1) % 26) as nat))
    }
}

/// Display label of a 1-based row: letters for positive rows, `?` otherwise.
pub open spec fn spec_row_label(row: int) -> Seq<char> {
    if row <= 0 {
        "?"@
    } else {
        row_letters(row as nat)
    }
}

fn push_row_letters(out: &mut String, n: u64)
    ensures
        final(out)@ == old(out)@ + row_letters(n as nat),
    decreases n,
{
    if n == 0 {
        assert(old(out)@ + row_letters(0) =~= old(out)@);
        return;
    }
    push_row_letters(out, (n - 1) / 26);
    let d: u8 = ((n - 1) % 26) as u8;
    let c: char = (65u8 + d) as char;
    assert(c == letter(((n - 1) % 26) as nat));
    push_char(out, c);
    assert(out@ =~= old(out)@ + row_letters(n as nat));
}

/// Label of a 1-based row: `A` … `Z`, `AA` …; `?` for non-positive rows.
pub fn row_label(row: i64) -> (r: String)
    ensures
        r@ == spec_row_label(row as int),
{
    let mut out = String::new();
    if row <= 0 {
        push_str(&mut out, "?");
        assert(out@ =~= "?"@);
        return out;
    }
    push_row_letters(&mut out, row as u64);
    assert(out@ =~= row_letters(row as nat));
    out
}

proof fn lemma_letter_injective(x: nat, y: nat)
    requires
        x < 26,
        y < 26,
        letter(x) == letter(y),
    ensures
        x == y,
{
    assert(letter(x) as int == 65 + x);
    assert(letter(y) as int == 65 + y);
}

/// Row letters are capital letters, and a positive row has at least one.
pub proof fn lemma_row_letters_shape(n: nat)
    ensures
        forall|i: int| 0 <= i < row_letters(n).len() ==> 'A' <= #[trigger] row_letters(n)[i] <= 'Z',
        n > 0 ==> row_letters(n).len() > 0,
        n == 0 ==> row_letters(n).len() == 0,
    decreases n,
{
    if n > 0 {
        lemma_row_letters_shape(((n - 1) / 26) as nat);
        assert(letter(((n - 1) % 26) as nat) as int == 65 + (n - 1) % 26);
    }
}

/// Distinct positive rows have distinct labels.
pub proof fn lemma_row_label_injective(a: int, b: int)
    requires
        a > 0,
        b > 0,
        spec_row_label(a) == spec_row_label(b),
    ensures
        a == b,
{
    lemma_row_letters_injective(a as nat, b as nat);
}

proof fn lemma_row_letters_injective(a: nat, b: nat)
    requires
        row_letters(a) == row_letters(b),
    ensures
        a == b,
    decreases a,
{
    lemma_row_letters_shape(a);
    lemma_row_letters_shape(b);
    if a > 0 && b > 0 {
        let qa = ((a - 1) / 26) as nat;
        let qb = ((b - 1) / 26) as nat;
        assert(row_letters(a).last() == letter(((a - 1) % 26) as nat));
        assert(row_letters(b).last() == letter(((b - 1) % 26) as nat));
        lemma_letter_injective(((a - 1) % 26) as nat, ((b - 1) % 26) as nat);
        assert(row_letters(a).drop_last() =~= row_letters(qa));
        assert(row_letters(b).drop_last() =~= row_letters(qb));
        lemma_row_letters_injective(qa, qb);
        vstd::arithmetic::div_mod::lemma_fundamental_div_mod(a - 1, 26);
        vstd::arithmetic::div_mod::lemma_fundamental_div_mod(b - 1, 26);
    }
}

/// CSS classes of a seat button in state `k`.
pub open spec fn state_class(k: SeatStateKind) -> Seq<char> {
    match k {
        SeatStateKind::Available => r#"border-base-300/90 bg-base-300/80 shadow-inner shadow-base-content/5 hover:-translate-y-px hover:border-primary/50 hover:bg-base-300 hover:shadow-md"#@,
        SeatStateKind::YourHold => r#"border-warning/80 bg-warning/85 shadow-inner shadow-warning/20 hover:-translate-y-px hover:border-warning hover:bg-warning hover:shadow-md"#@,
        SeatStateKind::OtherHold => r#"border-secondary/80 bg-secondary/85 shadow-inner shadow-secondary/20 hover:-translate-y-px hover:border-secondary hover:bg-secondary hover:shadow-md"#@,
        SeatStateKind::Confirmed => r#"border-error/80 bg-error/90 shadow-inner shadow-error/25 opacity-95 hover:-translate-y-px hover:border-error hover:bg-error"#@,
    }
}

/// Spoken label of state `k`.
pub open spec fn state_label(k: SeatStateKind) -> Seq<char> {
    match k {
        SeatStateKind::Available => r#"available"#@,
        SeatStateKind::YourHold => r#"your hold"#@,
        SeatStateKind::OtherHold => r#"held by another viewer"#@,
        SeatStateKind::Confirmed => r#"booked"#@,
    }
}

/// CSS classes of the inner mark in state `k`.
pub open spec fn inner_class(k: SeatStateKind) -> Seq<char> {
    match k {
        SeatStateKind::Available => r#"bg-base-content/15"#@,
        SeatStateKind::YourHold => r#"bg-warning-content/25"#@,
        SeatStateKind::OtherHold => r#"bg-secondary-content/25"#@,
        SeatStateKind::Confirmed => r#"bg-error-content/30"#@,
    }
}

/// Machine key of state `k` (`data-state`).
pub open spec fn state_key(k: SeatStateKind) -> Seq<char> {
    match k {
        SeatStateKind::Available => r#"available"#@,
        SeatStateKind::YourHold => r#"your_hold"#@,
        SeatStateKind::OtherHold => r#"other_hold"#@,
        SeatStateKind::Confirmed => r#"confirmed"#@,
    }
}

/// Each seat state is drawn its own way: two different states never share their
/// `data-state` key, their spoken label, their seat classes or their mark classes.
/// The key is the state's name as the seat-map JSON spells it, the label names the
/// state in words, and the viewer's own hold is drawn in the warning colour, another
/// viewer's in the secondary colour, a booked seat in the error colour.
pub proof fn lemma_state_rendering_distinct(a: SeatStateKind, b: SeatStateKind)
    ensures
        a != b ==> state_key(a) != state_key(b),
        a != b ==> state_label(a) != state_label(b),
        a != b ==> state_class(a) != state_class(b),
        a != b ==> inner_class(a) != inner_class(b),
        state_key(a) == match a {
            SeatStateKind::Available => "available"@,
            SeatStateKind::YourHold => "your_hold"@,
            SeatStateKind::OtherHold => "other_hold"@,
            SeatStateKind::Confirmed => "confirmed"@,
        },
        state_label(a) == match a {
            SeatStateKind::Available => "available"@,
            SeatStateKind::YourHold => "your hold"@,
            SeatStateKind::OtherHold => "held by another viewer"@,
            SeatStateKind::Confirmed => "booked"@,
        },
        inner_class(a) == match a {
            SeatStateKind::Available => "bg-base-content/15"@,
            SeatStateKind::YourHold => "bg-warning-content/25"@,
            SeatStateKind::OtherHold => "bg-secondary-content/25"@,
            SeatStateKind::Confirmed => "bg-error-content/30"@,
        },
        state_class(a) == match a {
            SeatStateKind::Available => "border-base-300/90 bg-base-300/80 shadow-inner shadow-base-content/5 hover:-translate-y-px hover:border-primary/50 hover:bg-base-300 hover:shadow-md"@,
            SeatStateKind::YourHold => "border-warning/80 bg-warning/85 shadow-inner shadow-warning/20 hover:-translate-y-px hover:border-warning hover:bg-warning hover:shadow-md"@,
            SeatStateKind::OtherHold => "border-secondary/80 bg-secondary/85 shadow-inner shadow-secondary/20 hover:-translate-y-px hover:border-secondary hover:bg-secondary hover:shadow-md"@,
            SeatStateKind::Confirmed => "border-error/80 bg-error/90 shadow-inner shadow-error/25 opacity-95 hover:-translate-y-px hover:border-error hover:bg-error"@,
        },
{
    reveal_strlit("available");
    reveal_strlit("your_hold");
    reveal_strlit("other_hold");
    reveal_strlit("confirmed");
    reveal_strlit("your hold");
    reveal_strlit("held by another viewer");
    reveal_strlit("booked");
    reveal_strlit("border-base-300/90 bg-base-300/80 shadow-inner shadow-base-content/5 hover:-translate-y-px hover:border-primary/50 hover:bg-base-300 hover:shadow-md");
    reveal_strlit("border-warning/80 bg-warning/85 shadow-inner shadow-warning/20 hover:-translate-y-px hover:border-warning hover:bg-warning hover:shadow-md");
    reveal_strlit("border-secondary/80 bg-secondary/85 shadow-inner shadow-secondary/20 hover:-translate-y-px hover:border-secondary hover:bg-secondary hover:shadow-md");
    reveal_strlit("border-error/80 bg-error/90 shadow-inner shadow-error/25 opacity-95 hover:-translate-y-px hover:border-error hover:bg-error");
    reveal_strlit("bg-base-content/15");
    reveal_strlit("bg-warning-content/25");
    reveal_strlit("bg-secondary-content/25");
    reveal_strlit("bg-error-content/30");
    if a != b {
        assert(state_key(a)[0] != state_key(b)[0]);
        assert(state_label(a)[0] != state_label(b)[0]);
        assert(state_class(a)[7] != state_class(b)[7]);
        assert(inner_class(a)[3] != inner_class(b)[3]);
    }
}

fn state_strings(k: SeatStateKind) -> (r: (&'static str, &'static str, &'static str, &'static str))
    ensures
        r.0@ == state_class(k),
        r.1@ == state_label(k),
        r.2@ == inner_class(k),
        r.3@ == state_key(k),
{
    match k {
        SeatStateKind::Available => (r#"border-base-300/90 bg-base-300/80 shadow-inner shadow-base-content/5 hover:-translate-y-px hover:border-primary/50 hover:bg-base-300 hover:shadow-md"#, r#"available"#, r#"bg-base-content/15"#, r#"available"#),
        SeatStateKind::YourHold => (r#"border-warning/80 bg-warning/85 shadow-inner shadow-warning/20 hover:-translate-y-px hover:border-warning hover:bg-warning hover:shadow-md"#, r#"your hold"#, r#"bg-warning-content/25"#, r#"your_hold"#),
        SeatStateKind::OtherHold => (r#"border-secondary/80 bg-secondary/85 shadow-inner shadow-secondary/20 hover:-translate-y-px hover:border-secondary hover:bg-secondary hover:shadow-md"#, r#"held by another viewer"#, r#"bg-secondary-content/25"#, r#"other_hold"#),
        SeatStateKind::Confirmed => (r#"border-error/80 bg-error/90 shadow-inner shadow-error/25 opacity-95 hover:-translate-y-px hover:border-error hover:bg-error"#, r#"booked"#, r#"bg-error-content/30"#, r#"confirmed"#),
    }
}

/// Error placeholder text for the seat grid.
pub open spec fn spec_seat_grid_error_html(message: Seq<char>) -> Seq<char> {
    ERROR_OPEN@ + escape_html(message) + ERROR_CLOSE@
}

/// Error placeholder when the movie is missing or the stream should show feedback.
pub fn seat_grid_error_html(message: &str) -> (r: String)
    ensures
        r@ == spec_seat_grid_error_html(message@),
{
    let msg = escape_html_attr(message);
    let mut r = String::new();
    push_str(&mut r, ERROR_OPEN);
    push_str(&mut r, msg.as_str());
    push_str(&mut r, ERROR_CLOSE);
    assert(r@ =~= spec_seat_grid_error_html(message@));
    r
}


/// Spoken label of a seat button: `Row {row}, Seat {col}, {state}`.
pub open spec fn aria_text(row_name: Seq<char>, seat: SeatStateDto) -> Seq<char> {
    "Row "@ + row_name + ", Seat "@ + int_text(seat.col as int) + ", "@ + state_label(seat.state)
}

/// The button of one seat.
pub open spec fn seat_button_html(seat: SeatStateDto, row_name: Seq<char>) -> Seq<char> {
    BUTTON_OPEN@ + state_class(seat.state) + BUTTON_SEAT@ + escape_html(seat.seat_uuid@)
        + BUTTON_STATE@ + state_key(seat.state) + BUTTON_ARIA@ + escape_html(
        aria_text(row_name, seat),
    ) + BUTTON_INNER@ + inner_class(seat.state) + BUTTON_CLOSE@
}

/// The button of one seat, followed by the aisle gap when the seat's column is the
/// one the aisle follows.
pub open spec fn seat_cell_html(seat: SeatStateDto, row_name: Seq<char>, aisle_after: int) -> Seq<char> {
    seat_button_html(seat, row_name) + (if aisle_after > 0 && seat.col == aisle_after {
        AISLE_HTML@
    } else {
        Seq::empty()
    })
}

/// The cells of a row, in order.
pub open spec fn seats_html(cells: Seq<SeatStateDto>, row_name: Seq<char>, aisle_after: int) -> Seq<char>
    decreases cells.len(),
{
    if cells.len() == 0 {
        Seq::empty()
    } else {
        seats_html(cells.drop_last(), row_name, aisle_after) + seat_cell_html(cells.last(), row_name, aisle_after)
    }
}

/// The seats whose row is `row`, in their given order.
pub open spec fn seats_in_row(seats: Seq<SeatStateDto>, row: int) -> Seq<SeatStateDto>
    decreases seats.len(),
{
    if seats.len() == 0 {
        Seq::empty()
    } else if seats.last().row == row {
        seats_in_row(seats.drop_last(), row).push(seats.last())
    } else {
        seats_in_row(seats.drop_last(), row)
    }
}

/// `x` inserted into `sorted` after every seat whose column is at most `x`'s.
pub open spec fn insert_by_col(sorted: Seq<SeatStateDto>, x: SeatStateDto) -> Seq<SeatStateDto>
    decreases sorted.len(),
{
    if sorted.len() == 0 {
        seq![x]
    } else if sorted.last().col <= x.col {
        sorted.push(x)
    } else {
        insert_by_col(sorted.drop_last(), x).push(sorted.last())
    }
}

/// Stable sort by column (seats with equal columns keep their order).
pub open spec fn sort_by_col(s: Seq<SeatStateDto>) -> Seq<SeatStateDto>
    decreases s.len(),
{
    if s.len() == 0 {
        Seq::empty()
    } else {
        insert_by_col(sort_by_col(s.drop_last()), s.last())
    }
}

/// The seats shown in row `row`, left to right.
pub open spec fn row_cells(seats: Seq<SeatStateDto>, row: int) -> Seq<SeatStateDto> {
    sort_by_col(seats_in_row(seats, row))
}

/// One row of the grid: its label, then its seats.
pub open spec fn row_html(seats: Seq<SeatStateDto>, row: int, aisle_after: int) -> Seq<char> {
    ROW_OPEN@ + escape_html(spec_row_label(row)) + ROW_SEATS@ + seats_html(
        row_cells(seats, row),
        spec_row_label(row),
        aisle_after,
    ) + ROW_CLOSE@
}

/// Rows `1..=n` of the grid.
pub open spec fn rows_html(seats: Seq<SeatStateDto>, n: int, aisle_after: int) -> Seq<char>
    decreases n,
{
    if n <= 0 {
        Seq::empty()
    } else {
        rows_html(seats, n - 1, aisle_after) + row_html(seats, n, aisle_after)
    }
}

/// Number of rows drawn: `row_count`, or 0 when negative.
pub open spec fn grid_rows(movie: Movie) -> int {
    if movie.row_count < 0 { 0 } else { movie.row_count as int }
}

/// Number of columns: `seats_per_row`, or 0 when negative.
pub open spec fn grid_cols(movie: Movie) -> int {
    if movie.seats_per_row < 0 { 0 } else { movie.seats_per_row as int }
}

/// Column after which the aisle gap is drawn: half the columns from 8 columns on,
/// none below.
pub open spec fn aisle_after(movie: Movie) -> int {
    if grid_cols(movie) >= 8 { grid_cols(movie) / 2 } else { 0 }
}

/// Accessible label of the whole grid.
pub open spec fn map_label(movie: Movie) -> Seq<char> {
    movie.title@ + " seat map with "@ + int_text(grid_rows(movie)) + " rows and "@ + int_text(
        grid_cols(movie),
    ) + " seats per row"@
}

/// The seat grid element (`#seatGrid`) of a movie.
pub open spec fn spec_seat_grid_element_html(movie: Movie, seats: Seq<SeatStateDto>) -> Seq<char> {
    GRID_OPEN@ + escape_html(map_label(movie)) + GRID_ROWS@ + rows_html(seats, grid_rows(movie), aisle_after(movie)) + GRID_CLOSE@
}

fn filter_row(seats: &[SeatStateDto], row: i64) -> (r: Vec<SeatStateDto>)
    ensures
        r@ == seats_in_row(seats@, row as int),
{
    let mut out: Vec<SeatStateDto> = Vec::new();
    let mut i: usize = 0;
    while i < seats.len()
        invariant
            i <= seats@.len(),
            out@ == seats_in_row(seats@.take(i as int), row as int),
        decreases seats@.len() - i,
    {
        assert(seats@.take(i + 1).drop_last() =~= seats@.take(i as int));
        if seats[i].row == row {
            out.push(seats[i].clone());
        }
        i = i + 1;
    }
    assert(seats@.take(i as int) =~= seats@);
    out
}

proof fn lemma_insert_by_col_at(s: Seq<SeatStateDto>, x: SeatStateDto, k: int)
    requires
        0 <= k <= s.len(),
        forall|j: int| k <= j < s.len() ==> (#[trigger] s[j]).col > x.col,
        k > 0 ==> s[k - 1].col <= x.col,
    ensures
        insert_by_col(s, x) == s.take(k) + seq![x] + s.skip(k),
    decreases s.len(),
{
    if s.len() == 0 {
        assert(s.take(k) + seq![x] + s.skip(k) =~= seq![x]);
    } else if s.last().col <= x.col {
        assert(k == s.len());
        assert(s.take(k) + seq![x] + s.skip(k) =~= s.push(x));
    } else {
        let t = s.drop_last();
        assert forall|j: int| k <= j < t.len() implies (#[trigger] t[j]).col > x.col by {
            assert(t[j] == s[j]);
        }
        if k > 0 {
            assert(t[k - 1] == s[k - 1]);
        }
        lemma_insert_by_col_at(t, x, k);
        assert(insert_by_col(s, x) =~= s.take(k) + seq![x] + s.skip(k));
    }
}

fn insert_sorted(v: Vec<SeatStateDto>, x: SeatStateDto) -> (r: Vec<SeatStateDto>)
    ensures
        r@ == insert_by_col(v@, x),
{
    let mut k: usize = v.len();
    while k > 0 && v[k - 1].col > x.col
        invariant
            k <= v@.len(),
            forall|j: int| k <= j < v@.len() ==> (#[trigger] v@[j]).col > x.col,
        decreases k,
    {
        k = k - 1;
    }
    proof {
        lemma_insert_by_col_at(v@, x, k as int);
    }
    let mut r: Vec<SeatStateDto> = Vec::new();
    let mut i: usize = 0;
    while i < k
        invariant
            i <= k <= v@.len(),
            r@ == v@.take(i as int),
        decreases k - i,
    {
        r.push(v[i].clone());
        i = i + 1;
        assert(r@ =~= v@.take(i as int));
    }
    r.push(x);
    let mut j: usize = k;
    while j < v.len()
        invariant
            k <= j <= v@.len(),
            r@ == v@.take(k as int) + seq![x] + v@.subrange(k as int, j as int),
        decreases v@.len() - j,
    {
        r.push(v[j].clone());
        j = j + 1;
        assert(r@ =~= v@.take(k as int) + seq![x] + v@.subrange(k as int, j as int));
    }
    assert(v@.subrange(k as int, j as int) =~= v@.skip(k as int));
    r
}

fn sorted_by_col(s: Vec<SeatStateDto>) -> (r: Vec<SeatStateDto>)
    ensures
        r@ == sort_by_col(s@),
{
    let mut out: Vec<SeatStateDto> = Vec::new();
    let mut i: usize = 0;
    while i < s.len()
        invariant
            i <= s@.len(),
            out@ == sort_by_col(s@.take(i as int)),
        decreases s@.len() - i,
    {
        assert(s@.take(i + 1).drop_last() =~= s@.take(i as int));
        out = insert_sorted(out, s[i].clone());
        i = i + 1;
    }
    assert(s@.take(i as int) =~= s@);
    out
}

fn push_seat_cell(out: &mut String, seat: &SeatStateDto, row_name: &str, aisle_after: i64)
    ensures
        final(out)@ == old(out)@ + seat_cell_html(*seat, row_name@, aisle_after as int),
{
    let (state_class_s, state_label_s, inner_class_s, state_key_s) = state_strings(seat.state);
    let seat_uuid = escape_html_attr(seat.seat_uuid.as_str());
    let mut aria_raw = String::new();
    push_str(&mut aria_raw, "Row ");
    push_str(&mut aria_raw, row_name);
    push_str(&mut aria_raw, ", Seat ");
    crate::text::push_i64(&mut aria_raw, seat.col);
    push_str(&mut aria_raw, ", ");
    push_str(&mut aria_raw, state_label_s);
    assert(aria_raw@ =~= aria_text(row_name@, *seat));
    let aria = escape_html_attr(aria_raw.as_str());
    push_str(out, BUTTON_OPEN);
    push_str(out, state_class_s);
    push_str(out, BUTTON_SEAT);
    push_str(out, seat_uuid.as_str());
    push_str(out, BUTTON_STATE);
    push_str(out, state_key_s);
    push_str(out, BUTTON_ARIA);
    push_str(out, aria.as_str());
    push_str(out, BUTTON_INNER);
    push_str(out, inner_class_s);
    push_str(out, BUTTON_CLOSE);
    if aisle_after > 0 && seat.col == aisle_after {
        push_str(out, AISLE_HTML);
    }
    assert(out@ =~= old(out)@ + seat_cell_html(*seat, row_name@, aisle_after as int));
}

fn push_row(out: &mut String, seats: &[SeatStateDto], row: i64, aisle_after: i64)
    requires
        row > 0,
    ensures
        final(out)@ == old(out)@ + row_html(seats@, row as int, aisle_after as int),
{
    let row_name = row_label(row);
    let row_name_html = escape_html_attr(row_name.as_str());
    let cells = sorted_by_col(filter_row(seats, row));
    let mut cells_html = String::new();
    let mut i: usize = 0;
    while i < cells.len()
        invariant
            i <= cells@.len(),
            cells@ == row_cells(seats@, row as int),
            cells_html@ == seats_html(cells@.take(i as int), row_name@, aisle_after as int),
        decreases cells@.len() - i,
    {
        assert(cells@.take(i + 1).drop_last() =~= cells@.take(i as int));
        push_seat_cell(&mut cells_html, &cells[i], row_name.as_str(), aisle_after);
        i = i + 1;
    }
    assert(cells@.take(i as int) =~= cells@);
    push_str(out, ROW_OPEN);
    push_str(out, row_name_html.as_str());
    push_str(out, ROW_SEATS);
    push_str(out, cells_html.as_str());
    push_str(out, ROW_CLOSE);
    assert(out@ =~= old(out)@ + row_html(seats@, row as int, aisle_after as int));
}

/// Builds the seat grid element (`#seatGrid`): one row per 1-based row number, each
/// with its seats left to right, an aisle gap in wide rows, and escaped labels.
pub fn seat_grid_element_html(movie: &Movie, seats: &[SeatStateDto]) -> (r: String)
    ensures
        r@ == spec_seat_grid_element_html(*movie, seats@),
{
    let rows: i64 = if movie.row_count < 0 { 0 } else { movie.row_count };
    let cols: i64 = if movie.seats_per_row < 0 { 0 } else { movie.seats_per_row };
    let aisle: i64 = if cols >= 8 { cols / 2 } else { 0 };
    let mut rows_out = String::new();
    let mut row: i64 = 0;
    while row < rows
        invariant
            0 <= row <= rows,
            rows as int == grid_rows(*movie),
            aisle as int == aisle_after(*movie),
            rows_out@ == rows_html(seats@, row as int, aisle as int),
        decreases rows - row,
    {
        row = row + 1;
        push_row(&mut rows_out, seats, row, aisle);
    }
    let mut label = String::new();
    push_str(&mut label, movie.title.as_str());
    push_str(&mut label, " seat map with ");
    crate::text::push_i64(&mut label, rows);
    push_str(&mut label, " rows and ");
    crate::text::push_i64(&mut label, cols);
    push_str(&mut label, " seats per row");
    assert(label@ =~= map_label(*movie));
    let label_html = escape_html_attr(label.as_str());
    let mut r = String::new();
    push_str(&mut r, GRID_OPEN);
    push_str(&mut r, label_html.as_str());
    push_str(&mut r, GRID_ROWS);
    push_str(&mut r, rows_out.as_str());
    push_str(&mut r, GRID_CLOSE);
    assert(r@ =~= spec_seat_grid_element_html(*movie, seats@));
    r
}

} // verus!
