//! Redis-backed seat holds: configuration, key layout, and the decisions around the
//! hold (`SET NX EX`), confirm (script) and listing (`SCAN` + `GET`) round trips.

use vstd::prelude::*;
use crate::store_port::{
    BookingStoreError, SeatHoldChangeset, SeatReservationSession, SeatReservationStatus,
    blank, hold_inputs_ok, hold_inputs_error, validate_hold_inputs,
};
use crate::text::{is_blank, owned, push_chars, push_str, str_eq, to_chars, trim, trim_chars};
use crate::uuids::{is_uuid_v4_text, new_uuid_v4};

verus! {

#[verifier::external_type_specification]
#[verifier::external_body]
pub struct ExRedisClient(redis::Client);

/// What `redis::Client::open` makes of a URL: accepted, or refused with the error's
/// text. It parses the URL only and opens no connection.
pub uninterp spec fn redis_open_outcome(url: Seq<char>) -> Result<(), Seq<char>>;

/// `redis::Client::open`: builds a client from a URL, without connecting; the error is
/// carried as its `Display` text.
#[verifier::external_body]
fn open_redis_client(url: String) -> (r: Result<redis::Client, String>)
    ensures
        match r {
            Ok(_) => redis_open_outcome(url@) is Ok,
            Err(m) => redis_open_outcome(url@) == Err::<(), Seq<char>>(m@),
        },
{
    match redis::Client::open(url) {
        Ok(c) => Ok(c),
        Err(e) => Err(e.to_string()),
    }
}

/// Runtime configuration for [`RedisSeatHoldStore`].
#[derive(Debug)]
pub struct RedisSeatHoldStoreConfig {
    pub url: String,
    pub key_prefix: String,
    pub hold_ttl_seconds: u64,
}

impl Default for RedisSeatHoldStoreConfig {
    fn default() -> (r: Self)
        ensures
            r.url@ == "redis://127.0.0.1:6379/"@,
            r.key_prefix@ == Seq::<char>::empty(),
            r.hold_ttl_seconds == 120,
    {
        RedisSeatHoldStoreConfig { url: owned("redis://127.0.0.1:6379/"), key_prefix: String::new(), hold_ttl_seconds: 120 }
    }
}

/// `s` without its leading `c` characters.
pub open spec fn strip_leading(s: Seq<char>, c: char) -> Seq<char>
    decreases s.len(),
{
    if s.len() > 0 && s[0] == c {
        strip_leading(s.drop_first(), c)
    } else {
        s
    }
}

/// `s` without its trailing `c` characters.
pub open spec fn strip_trailing(s: Seq<char>, c: char) -> Seq<char>
    decreases s.len(),
{
    if s.len() > 0 && s.last() == c {
        strip_trailing(s.drop_last(), c)
    } else {
        s
    }
}

/// Key prefix as stored: trimmed of whitespace, then of `:` at both ends.
pub open spec fn normalize_prefix(s: Seq<char>) -> Seq<char> {
    strip_trailing(strip_leading(trim(s), ':'), ':')
}

fn strip_colons(v: &Vec<char>) -> (r: Vec<char>)
    ensures
        r@ == strip_trailing(strip_leading(v@, ':'), ':'),
{
    let n = v.len();
    let mut a: usize = 0;
    assert(v@.skip(0) =~= v@);
    while a < n && v[a] == ':'
        invariant
            a <= n == v@.len(),
            strip_leading(v@.skip(a as int), ':') == strip_leading(v@, ':'),
        decreases n - a,
    {
        assert(v@.skip(a as int).drop_first() =~= v@.skip(a + 1));
        a = a + 1;
    }
    let mut b: usize = n;
    proof {
        if a < n {
            assert(v@.skip(a as int)[0] == v@[a as int]);
        }
        assert(strip_leading(v@.skip(a as int), ':') == v@.skip(a as int));
        assert(v@.subrange(a as int, b as int) =~= v@.skip(a as int));
    }
    while b > a && v[b - 1] == ':'
        invariant
            a <= b <= n == v@.len(),
            strip_trailing(v@.subrange(a as int, b as int), ':') == strip_trailing(strip_leading(v@, ':'), ':'),
        decreases b - a,
    {
        assert(v@.subrange(a as int, b - 1) =~= v@.subrange(a as int, b as int).drop_last());
        b = b - 1;
    }
    proof {
        if b > a {
            assert(v@.subrange(a as int, b as int).last() == v@[b - 1]);
        }
    }
    crate::text::sub_chars(v, a, b)
}

/// Redis-backed seat hold store.
pub struct RedisSeatHoldStore {
    client: redis::Client,
    key_prefix: String,
    hold_ttl_seconds: u64,
}

/// The seat lock key: `[{prefix}:]seat:{movie}:{seat}`.
pub open spec fn spec_seat_key(prefix: Seq<char>, movie_slug: Seq<char>, seat_uuid: Seq<char>) -> Seq<char> {
    if prefix.len() == 0 {
        "seat:"@ + movie_slug + ":"@ + seat_uuid
    } else {
        prefix + ":seat:"@ + movie_slug + ":"@ + seat_uuid
    }
}

/// The `SCAN` pattern of a movie's seat keys: `[{prefix}:]seat:{movie}:*`.
pub open spec fn spec_seat_keys_pattern(prefix: Seq<char>, movie_slug: Seq<char>) -> Seq<char> {
    if prefix.len() == 0 {
        "seat:"@ + movie_slug + ":*"@
    } else {
        prefix + ":seat:"@ + movie_slug + ":*"@
    }
}

/// Rules of [`RedisSeatHoldStore::new`]: a zero TTL is refused, then a URL the client
/// refuses.
pub open spec fn new_store_result(config: RedisSeatHoldStoreConfig, r: Result<RedisSeatHoldStore, BookingStoreError>) -> bool {
    if config.hold_ttl_seconds == 0 {
        r matches Err(BookingStoreError::Validation(m)) && m@ == "hold_ttl_seconds must be greater than 0"@
    } else {
        match redis_open_outcome(config.url@) {
            Err(e) => r matches Err(BookingStoreError::Internal(m)) && m@ == "redis client init failed: "@ + e,
            Ok(()) => r matches Ok(s) && s.key_prefix() == normalize_prefix(config.key_prefix@)
                && s.hold_ttl_seconds() == config.hold_ttl_seconds,
        }
    }
}

/// A hold ready to be written: its key, the session to store, and its TTL.
#[derive(Debug)]
pub struct PreparedHold {
    pub key: String,
    pub session: SeatReservationSession,
    pub ttl_seconds: u64,
}

/// Largest TTL, in seconds, that a time span can hold (`i64::MAX` milliseconds).
pub open spec fn max_ttl_seconds() -> int {
    i64::MAX / 1000
}

impl RedisSeatHoldStore {
    /// The stored key prefix.
    pub closed spec fn key_prefix(&self) -> Seq<char> {
        self.key_prefix@
    }

    /// The client the store was built with.
    pub closed spec fn redis_client(&self) -> redis::Client {
        self.client
    }

    /// The hold TTL in seconds.
    pub closed spec fn hold_ttl_seconds(&self) -> u64 {
        self.hold_ttl_seconds
    }

    /// The hold TTL is positive.
    pub closed spec fn wf(&self) -> bool {
        self.hold_ttl_seconds > 0
    }

    /// Creates the store: refuses a zero TTL, builds the client from the URL, and
    /// normalizes the key prefix.
    pub fn new(config: RedisSeatHoldStoreConfig) -> (r: Result<Self, BookingStoreError>)
        ensures
            new_store_result(config, r),
            r matches Ok(s) ==> s.wf(),
    {
        if config.hold_ttl_seconds == 0 {
            return Err(BookingStoreError::Validation(owned("hold_ttl_seconds must be greater than 0")));
        }
        let ghost url = config.url@;
        let client = match open_redis_client(config.url) {
            Ok(c) => c,
            Err(e) => {
                let mut m = String::new();
                push_str(&mut m, "redis client init failed: ");
                push_str(&mut m, e.as_str());
                return Err(BookingStoreError::Internal(m));
            },
        };
        let v = to_chars(config.key_prefix.as_str());
        let t = trim_chars(&v);
        let p = strip_colons(&t);
        let key_prefix = crate::text::string_of(&p, 0, p.len());
        assert(p@.subrange(0, p@.len() as int) =~= p@);
        assert(key_prefix@ == normalize_prefix(config.key_prefix@));
        let s = RedisSeatHoldStore { client, key_prefix, hold_ttl_seconds: config.hold_ttl_seconds };
        assert(redis_open_outcome(url) is Ok);
        Ok(s)
    }

    /// The client, for the connection round trips.
    pub fn client(&self) -> (r: &redis::Client)
        ensures
            *r == self.redis_client(),
    {
        &self.client
    }

    /// The hold TTL in seconds.
    pub fn ttl_seconds(&self) -> (r: u64)
        ensures
            r == self.hold_ttl_seconds(),
    {
        self.hold_ttl_seconds
    }

    /// The seat lock key of a seat of a movie.
    pub fn seat_key(&self, movie_slug: &str, seat_uuid: &str) -> (r: String)
        ensures
            r@ == spec_seat_key(self.key_prefix(), movie_slug@, seat_uuid@),
    {
        let mut r = String::new();
        if self.key_prefix.as_str().unicode_len() == 0 {
            push_str(&mut r, "seat:");
        } else {
            push_str(&mut r, self.key_prefix.as_str());
            push_str(&mut r, ":seat:");
        }
        push_str(&mut r, movie_slug);
        push_str(&mut r, ":");
        push_str(&mut r, seat_uuid);
        assert(r@ =~= spec_seat_key(self.key_prefix(), movie_slug@, seat_uuid@));
        r
    }

    /// Glob pattern for `SCAN` over all seat keys of one movie.
    pub fn seat_keys_pattern(&self, movie_slug: &str) -> (r: String)
        ensures
            r@ == spec_seat_keys_pattern(self.key_prefix(), movie_slug@),
    {
        let mut r = String::new();
        if self.key_prefix.as_str().unicode_len() == 0 {
            push_str(&mut r, "seat:");
        } else {
            push_str(&mut r, self.key_prefix.as_str());
            push_str(&mut r, ":seat:");
        }
        push_str(&mut r, movie_slug);
        push_str(&mut r, ":*");
        assert(r@ =~= spec_seat_keys_pattern(self.key_prefix(), movie_slug@));
        r
    }
}

/// Rules of a hold before it is written: the hold inputs, then the TTL (at most
/// `i64::MAX` seconds, then at most `i64::MAX` milliseconds); the session is held by
/// the changeset's user under the given id and expires `ttl` seconds after `now`.
pub open spec fn prepare_hold_result(store: RedisSeatHoldStore, ch: SeatHoldChangeset, now_unix_ms: i64, session_uuid: Seq<char>, r: Result<PreparedHold, BookingStoreError>) -> bool {
    if !hold_inputs_ok(ch.movie_slug@, ch.seat_uuid@, ch.user_uuid@) {
        hold_inputs_error(ch.movie_slug@, ch.seat_uuid@, ch.user_uuid@, r)
    } else if store.hold_ttl_seconds() > i64::MAX {
        r matches Err(BookingStoreError::Validation(m)) && m@ == "hold_ttl_seconds is too large"@
    } else if store.hold_ttl_seconds() > max_ttl_seconds() {
        r matches Err(BookingStoreError::Validation(m)) && m@ == "hold_ttl_seconds is out of range"@
    } else {
        r matches Ok(p) && {
            &&& p.key@ == spec_seat_key(store.key_prefix(), ch.movie_slug@, ch.seat_uuid@)
            &&& p.ttl_seconds == store.hold_ttl_seconds()
            &&& p.session.session_uuid@ == session_uuid
            &&& p.session.movie_slug == ch.movie_slug
            &&& p.session.seat_uuid == ch.seat_uuid
            &&& p.session.user_uuid == ch.user_uuid
            &&& p.session.status == SeatReservationStatus::Held
            &&& p.session.expires_at == now_unix_ms + store.hold_ttl_seconds() * 1000
        }
    }
}

/// Latest instant a UTC timestamp can represent (the end of year 262142), in Unix
/// milliseconds; a hold may not expire later.
pub const MAX_EXPIRY_UNIX_MS: i64 = 8210266876799999;

/// The expiry of a hold is a representable UTC timestamp whenever the TTL is in
/// range: `now` plus the TTL does not pass [`MAX_EXPIRY_UNIX_MS`].
pub open spec fn expiry_fits(store: RedisSeatHoldStore, now_unix_ms: i64) -> bool {
    store.hold_ttl_seconds() <= max_ttl_seconds() ==> now_unix_ms + store.hold_ttl_seconds() * 1000 <= MAX_EXPIRY_UNIX_MS
}

impl RedisSeatHoldStore {
    /// Builds the key and session of a hold under the given session id (see
    /// [`Self::prepare_hold`]).
    pub fn prepare_hold_with_session_uuid(&self, changeset: SeatHoldChangeset, now_unix_ms: i64, session_uuid: String) -> (r: Result<PreparedHold, BookingStoreError>)
        requires
            expiry_fits(*self, now_unix_ms),
        ensures
            prepare_hold_result(*self, changeset, now_unix_ms, session_uuid@, r),
    {
        match changeset.validate() {
            Err(e) => {
                return Err(e);
            },
            Ok(()) => {},
        }
        let key = self.seat_key(changeset.movie_slug.as_str(), changeset.seat_uuid.as_str());
        if self.hold_ttl_seconds > 9223372036854775807u64 {
            return Err(BookingStoreError::Validation(owned("hold_ttl_seconds is too large")));
        }
        let ttl: i64 = self.hold_ttl_seconds as i64;
        if ttl > 9223372036854775i64 {
            return Err(BookingStoreError::Validation(owned("hold_ttl_seconds is out of range")));
        }
        let expires_at: i64 = now_unix_ms + ttl * 1000;
        let session = SeatReservationSession {
            session_uuid,
            movie_slug: changeset.movie_slug,
            seat_uuid: changeset.seat_uuid,
            user_uuid: changeset.user_uuid,
            status: SeatReservationStatus::Held,
            expires_at,
        };
        Ok(PreparedHold { key, session, ttl_seconds: self.hold_ttl_seconds })
    }

    /// Builds the key and the held session of a hold with a fresh random session id,
    /// expiring `hold_ttl_seconds` after `now_unix_ms`.
    pub fn prepare_hold(&self, changeset: SeatHoldChangeset, now_unix_ms: i64) -> (r: Result<PreparedHold, BookingStoreError>)
        requires
            expiry_fits(*self, now_unix_ms),
        ensures
            exists|u: Seq<char>| is_uuid_v4_text(u) && prepare_hold_result(*self, changeset, now_unix_ms, u, r),
    {
        let u = new_uuid_v4();
        let ghost uv = u@;
        let r = self.prepare_hold_with_session_uuid(changeset, now_unix_ms, u);
        assert(is_uuid_v4_text(uv) && prepare_hold_result(*self, changeset, now_unix_ms, uv, r));
        r
    }
}

/// Result of a hold from the reply to `SET key payload NX EX ttl`: no reply means the
/// key exists already, so the seat is unavailable.
pub fn hold_outcome(set_reply: Option<String>, session: SeatReservationSession) -> (r: Result<SeatReservationSession, BookingStoreError>)
    ensures
        set_reply is None ==> (r matches Err(BookingStoreError::SeatUnavailable)),
        set_reply is Some ==> r == Ok::<SeatReservationSession, BookingStoreError>(session),
{
    match set_reply {
        None => Err(BookingStoreError::SeatUnavailable),
        Some(_) => Ok(session),
    }
}

/// Checks the confirm inputs: movie slug, seat id and user id each non-blank.
pub fn validate_confirm_inputs(movie_slug: &str, seat_uuid: &str, user_uuid: &str) -> (r: Result<(), BookingStoreError>)
    ensures
        hold_inputs_ok(movie_slug@, seat_uuid@, user_uuid@) ==> r is Ok,
        !hold_inputs_ok(movie_slug@, seat_uuid@, user_uuid@) ==> hold_inputs_error(movie_slug@, seat_uuid@, user_uuid@, r),
{
    validate_hold_inputs(movie_slug, seat_uuid, user_uuid)
}

/// Meaning of the confirm script's status: 0 no session, 1 another user's session,
/// 2 confirmed (the payload holds the session), anything else an internal error.
pub fn confirm_script_outcome(status: i64) -> (r: Result<(), BookingStoreError>)
    ensures
        status == 0 ==> (r matches Err(BookingStoreError::SessionNotFound)),
        status == 1 ==> (r matches Err(BookingStoreError::SessionOwnershipMismatch)),
        status == 2 ==> r is Ok,
        status != 0 && status != 1 && status != 2 ==> (r matches Err(BookingStoreError::Internal(m)) && m@ == "redis confirm returned unknown status"@),
{
    if status == 0 {
        Err(BookingStoreError::SessionNotFound)
    } else if status == 1 {
        Err(BookingStoreError::SessionOwnershipMismatch)
    } else if status == 2 {
        Ok(())
    } else {
        Err(BookingStoreError::Internal(owned("redis confirm returned unknown status")))
    }
}

/// Checks the listing input: the movie slug is non-blank.
pub fn validate_list_input(movie_slug: &str) -> (r: Result<(), BookingStoreError>)
    ensures
        !blank(movie_slug@) ==> r is Ok,
        blank(movie_slug@) ==> (r matches Err(BookingStoreError::Validation(m)) && m@ == "movie_slug must not be empty"@),
{
    if is_blank(movie_slug) {
        Err(BookingStoreError::Validation(owned("movie_slug must not be empty")))
    } else {
        Ok(())
    }
}

/// The held sessions of `movie` among decoded key payloads (`None` for a key that
/// vanished or did not decode), in key order.
pub open spec fn held_sessions(movie: Seq<char>, candidates: Seq<Option<SeatReservationSession>>) -> Seq<SeatReservationSession>
    decreases candidates.len(),
{
    if candidates.len() == 0 {
        Seq::empty()
    } else {
        let rest = held_sessions(movie, candidates.drop_last());
        match candidates.last() {
            Some(s) => if s.status == SeatReservationStatus::Held && s.movie_slug@ == movie {
                rest.push(s)
            } else {
                rest
            },
            None => rest,
        }
    }
}

/// Keeps the held sessions of the movie among the decoded payloads of its keys.
pub fn held_sessions_for_movie(movie_slug: &str, candidates: Vec<Option<SeatReservationSession>>) -> (r: Vec<SeatReservationSession>)
    ensures
        r@ == held_sessions(movie_slug@, candidates@),
{
    let mut out: Vec<SeatReservationSession> = Vec::new();
    let mut i: usize = 0;
    while i < candidates.len()
        invariant
            i <= candidates@.len(),
            out@ == held_sessions(movie_slug@, candidates@.take(i as int)),
        decreases candidates@.len() - i,
    {
        assert(candidates@.take(i + 1).drop_last() =~= candidates@.take(i as int));
        match &candidates[i] {
            Some(s) => {
                if s.status == SeatReservationStatus::Held && str_eq(s.movie_slug.as_str(), movie_slug) {
                    out.push(s.clone());
                }
            },
            None => {},
        }
        i = i + 1;
    }
    assert(candidates@.take(i as int) =~= candidates@);
    out
}

/// Every listed session is held and belongs to the movie.
pub proof fn lemma_held_sessions(movie: Seq<char>, candidates: Seq<Option<SeatReservationSession>>)
    ensures
        forall|i: int| 0 <= i < held_sessions(movie, candidates).len() ==> (#[trigger] held_sessions(movie, candidates)[i]).status == SeatReservationStatus::Held
            && held_sessions(movie, candidates)[i].movie_slug@ == movie,
    decreases candidates.len(),
{
    if candidates.len() > 0 {
        lemma_held_sessions(movie, candidates.drop_last());
    }
}

/// The listing keeps exactly the held sessions of the movie: a session is listed
/// exactly when some candidate decodes to it, it is held, and it belongs to the movie,
/// whoever holds it. Nothing else is listed, and no such session is dropped.
pub proof fn lemma_held_sessions_exact(movie: Seq<char>, candidates: Seq<Option<SeatReservationSession>>, s: SeatReservationSession)
    ensures
        held_sessions(movie, candidates).contains(s) <==> {
            &&& exists|k: int| 0 <= k < candidates.len() && #[trigger] candidates[k] == Some(s)
            &&& s.status == SeatReservationStatus::Held
            &&& s.movie_slug@ == movie
        },
    decreases candidates.len(),
{
    if candidates.len() > 0 {
        let init = candidates.drop_last();
        lemma_held_sessions_exact(movie, init, s);
        let rest = held_sessions(movie, init);
        let out = held_sessions(movie, candidates);
        if exists|k: int| 0 <= k < init.len() && #[trigger] init[k] == Some(s) {
            let k = choose|k: int| 0 <= k < init.len() && #[trigger] init[k] == Some(s);
            assert(candidates[k] == Some(s));
        }
        if exists|k: int| 0 <= k < candidates.len() && #[trigger] candidates[k] == Some(s) {
            let k = choose|k: int| 0 <= k < candidates.len() && #[trigger] candidates[k] == Some(s);
            if k < init.len() {
                assert(init[k] == Some(s));
            }
        }
        if rest.contains(s) {
            let j = choose|j: int| 0 <= j < rest.len() && rest[j] == s;
            if out != rest {
                assert(out[j] == s);
            }
        }
        if out != rest && out.last() == s {
            assert(out[out.len() - 1] == s);
        }
        if out.contains(s) && out != rest {
            let j = choose|j: int| 0 <= j < out.len() && out[j] == s;
            if j < rest.len() {
                assert(rest[j] == s);
            }
        }
    }
}

/// A new hold replaces exactly the same user's other held seats of the movie: a listed
/// session is superseded exactly when it is held, belongs to the new hold's movie and
/// user, and is for another seat, whatever its session id or expiry.
pub proof fn lemma_superseded_holds_exact(kept: SeatReservationSession, held: Seq<SeatReservationSession>, s: SeatReservationSession)
    ensures
        superseded_holds(kept, held).contains(s) <==> {
            &&& held.contains(s)
            &&& s.status == SeatReservationStatus::Held
            &&& s.movie_slug@ == kept.movie_slug@
            &&& s.user_uuid@ == kept.user_uuid@
            &&& s.seat_uuid@ != kept.seat_uuid@
        },
    decreases held.len(),
{
    if held.len() > 0 {
        let init = held.drop_last();
        lemma_superseded_holds_exact(kept, init, s);
        let rest = superseded_holds(kept, init);
        let out = superseded_holds(kept, held);
        if init.contains(s) {
            let k = choose|k: int| 0 <= k < init.len() && init[k] == s;
            assert(held[k] == s);
        }
        if held.contains(s) {
            let k = choose|k: int| 0 <= k < held.len() && held[k] == s;
            if k < init.len() {
                assert(init[k] == s);
            } else {
                assert(held.last() == s);
            }
        }
        if rest.contains(s) {
            let j = choose|j: int| 0 <= j < rest.len() && rest[j] == s;
            if out != rest {
                assert(out[j] == s);
            }
        }
        if out != rest && out.last() == s {
            assert(out[out.len() - 1] == s);
        }
        if out.contains(s) && out != rest {
            let j = choose|j: int| 0 <= j < out.len() && out[j] == s;
            if j < rest.len() {
                assert(rest[j] == s);
            }
        }
    }
}

/// A seat's key always matches its movie's `SCAN` pattern: the key is the pattern
/// without its final `*`, followed by the seat id.
pub proof fn lemma_seat_key_matches_pattern(prefix: Seq<char>, movie: Seq<char>, seat: Seq<char>)
    ensures
        ({
            let pat = spec_seat_keys_pattern(prefix, movie);
            spec_seat_key(prefix, movie, seat) == pat.drop_last() + seat
        }),
{
    reveal_strlit(":*");
    reveal_strlit(":");
    let pat = spec_seat_keys_pattern(prefix, movie);
    if prefix.len() == 0 {
        assert(pat.drop_last() =~= "seat:"@ + movie + ":"@);
    } else {
        assert(pat.drop_last() =~= prefix + ":seat:"@ + movie + ":"@);
    }
    assert(spec_seat_key(prefix, movie, seat) =~= pat.drop_last() + seat);
}

/// A held session that a new hold `kept` replaces: the same user's hold of another
/// seat of the same movie.
pub open spec fn replaced_by(s: SeatReservationSession, kept: SeatReservationSession) -> bool {
    &&& s.status == SeatReservationStatus::Held
    &&& s.movie_slug@ == kept.movie_slug@
    &&& s.user_uuid@ == kept.user_uuid@
    &&& s.seat_uuid@ != kept.seat_uuid@
}

/// The listed held sessions that the new hold `kept` replaces, in listing order.
pub open spec fn superseded_holds(kept: SeatReservationSession, held: Seq<SeatReservationSession>) -> Seq<SeatReservationSession>
    decreases held.len(),
{
    if held.len() == 0 {
        Seq::empty()
    } else {
        let rest = superseded_holds(kept, held.drop_last());
        if replaced_by(held.last(), kept) {
            rest.push(held.last())
        } else {
            rest
        }
    }
}

/// The key of a seat determines the seat, for a given prefix and movie.
pub proof fn lemma_seat_key_injective(prefix: Seq<char>, movie: Seq<char>, a: Seq<char>, b: Seq<char>)
    requires
        spec_seat_key(prefix, movie, a) == spec_seat_key(prefix, movie, b),
    ensures
        a == b,
{
    let head = if prefix.len() == 0 {
        "seat:"@ + movie + ":"@
    } else {
        prefix + ":seat:"@ + movie + ":"@
    };
    assert(spec_seat_key(prefix, movie, a) =~= head + a);
    assert(spec_seat_key(prefix, movie, b) =~= head + b);
    assert((head + a).skip(head.len() as int) =~= a);
    assert((head + b).skip(head.len() as int) =~= b);
}

/// Every session a new hold replaces is a held session of the same user and movie,
/// for another seat, so its key is never the new hold's key.
pub proof fn lemma_superseded_holds(prefix: Seq<char>, kept: SeatReservationSession, held: Seq<SeatReservationSession>)
    ensures
        forall|i: int| 0 <= i < superseded_holds(kept, held).len() ==> replaced_by(#[trigger] superseded_holds(kept, held)[i], kept),
        forall|i: int| 0 <= i < superseded_holds(kept, held).len() ==> spec_seat_key(
            prefix,
            (#[trigger] superseded_holds(kept, held)[i]).movie_slug@,
            superseded_holds(kept, held)[i].seat_uuid@,
        ) != spec_seat_key(prefix, kept.movie_slug@, kept.seat_uuid@),
    decreases held.len(),
{
    if held.len() > 0 {
        lemma_superseded_holds(prefix, kept, held.drop_last());
    }
    assert forall|i: int| 0 <= i < superseded_holds(kept, held).len() implies spec_seat_key(
        prefix,
        (#[trigger] superseded_holds(kept, held)[i]).movie_slug@,
        superseded_holds(kept, held)[i].seat_uuid@,
    ) != spec_seat_key(prefix, kept.movie_slug@, kept.seat_uuid@) by {
        let s = superseded_holds(kept, held)[i];
        if spec_seat_key(prefix, s.movie_slug@, s.seat_uuid@) == spec_seat_key(prefix, kept.movie_slug@, kept.seat_uuid@) {
            lemma_seat_key_injective(prefix, kept.movie_slug@, s.seat_uuid@, kept.seat_uuid@);
        }
    }
}

impl RedisSeatHoldStore {
    /// Keys of the holds that a new hold for `kept` replaces: those of the same user's
    /// held sessions for other seats of the movie among `held` (the movie's listed
    /// holds), so that a user holds at most one seat per movie.
    pub fn superseded_hold_keys(&self, kept: &SeatReservationSession, held: &Vec<SeatReservationSession>) -> (r: Vec<String>)
        ensures
            r@.len() == superseded_holds(*kept, held@).len(),
            forall|i: int| 0 <= i < r@.len() ==> (#[trigger] r@[i])@ == spec_seat_key(
                self.key_prefix(),
                superseded_holds(*kept, held@)[i].movie_slug@,
                superseded_holds(*kept, held@)[i].seat_uuid@,
            ),
    {
        let mut out: Vec<String> = Vec::new();
        let mut i: usize = 0;
        while i < held.len()
            invariant
                i <= held@.len(),
                out@.len() == superseded_holds(*kept, held@.take(i as int)).len(),
                forall|k: int| 0 <= k < out@.len() ==> (#[trigger] out@[k])@ == spec_seat_key(
                    self.key_prefix(),
                    superseded_holds(*kept, held@.take(i as int))[k].movie_slug@,
                    superseded_holds(*kept, held@.take(i as int))[k].seat_uuid@,
                ),
            decreases held@.len() - i,
        {
            assert(held@.take(i + 1).drop_last() =~= held@.take(i as int));
            assert(held@.take(i + 1).last() == held@[i as int]);
            let s = &held[i];
            if s.status == SeatReservationStatus::Held && str_eq(s.movie_slug.as_str(), kept.movie_slug.as_str())
                && str_eq(s.user_uuid.as_str(), kept.user_uuid.as_str())
                && !str_eq(s.seat_uuid.as_str(), kept.seat_uuid.as_str()) {
                let key = self.seat_key(s.movie_slug.as_str(), s.seat_uuid.as_str());
                out.push(key);
            }
            i = i + 1;
        }
        assert(held@.take(i as int) =~= held@);
        out
    }
}

} // verus!
