//! Movies: entity, changeset rules and public slugs.

use vstd::prelude::*;
use crate::db::{ValidationErrors, note_invalid};
use crate::text::{int_text, push_char, push_i64, push_str, to_chars};

verus! {

/// A movie with auditorium dimensions (rows × seats per row).
#[derive(Debug)]
pub struct Movie {
    /// The internal id of the record (aliases rowid for speed).
    pub id: i64,
    /// URL-safe slug: slugified title plus numeric id (unique).
    pub slug: String,
    pub title: String,
    /// Short display time label shown in the program list (for example `"in 5 min"`).
    pub movie_time: String,
    /// Number of rows in the auditorium.
    pub row_count: i64,
    /// Seats in each row.
    pub seats_per_row: i64,
}

impl Clone for Movie {
    fn clone(&self) -> (r: Self)
        ensures
            r == *self,
    {
        Movie {
            id: self.id,
            slug: self.slug.clone(),
            title: self.title.clone(),
            movie_time: self.movie_time.clone(),
            row_count: self.row_count,
            seats_per_row: self.seats_per_row,
        }
    }
}

/// Payload for creating or updating a [`Movie`].
#[derive(Debug, Clone)]
pub struct MovieChangeset {
    pub title: String,
    pub movie_time: String,
    pub row_count: i64,
    pub seats_per_row: i64,
}

impl MovieChangeset {
    /// Names of the fields that break the changeset's rules.
    pub open spec fn invalid_fields(&self) -> Seq<Seq<char>> {
        let a: Seq<Seq<char>> = if self.title@.len() < 1 {
            seq!["title"@]
        } else {
            Seq::empty()
        };
        let b: Seq<Seq<char>> = if self.movie_time@.len() < 1 || self.movie_time@.len() > 32 {
            a.push("movie_time"@)
        } else {
            a
        };
        let c: Seq<Seq<char>> = if self.row_count < 1 {
            b.push("row_count"@)
        } else {
            b
        };
        if self.seats_per_row < 1 {
            c.push("seats_per_row"@)
        } else {
            c
        }
    }

    /// Checks the changeset's rules: a non-empty title, a time label of 1 to 32
    /// characters, and at least one row and one seat per row.
    pub fn validate(&self) -> (r: Result<(), ValidationErrors>)
        ensures
            r is Ok <==> self.invalid_fields().len() == 0,
            r matches Err(e) ==> e.field_names() == self.invalid_fields(),
    {
        let mut fields: Vec<String> = Vec::new();
        assert(fields@.map_values(|f: String| f@) =~= Seq::<Seq<char>>::empty());
        let time_len = self.movie_time.as_str().unicode_len();
        note_invalid(&mut fields, self.title.as_str().unicode_len() < 1, "title");
        note_invalid(&mut fields, time_len < 1 || time_len > 32, "movie_time");
        note_invalid(&mut fields, self.row_count < 1, "row_count");
        note_invalid(&mut fields, self.seats_per_row < 1, "seats_per_row");
        if fields.len() == 0 {
            Ok(())
        } else {
            let e = ValidationErrors { fields };
            assert(e.field_names() =~= self.invalid_fields());
            Err(e)
        }
    }
}

/// What `str::to_lowercase` returns for a text: its Unicode lowercase mapping.
pub uninterp spec fn lowercase(s: Seq<char>) -> Seq<char>;

/// A character a lowercase slug is made of: `a`–`z`, `0`–`9` or `-`.
pub open spec fn is_lower_slug_char(c: char) -> bool {
    ('a' <= c && c <= 'z') || ('0' <= c && c <= '9') || c == '-'
}

/// Every character of `s` is `a`–`z`, `0`–`9` or `-`.
pub open spec fn has_only_slug_chars(s: Seq<char>) -> bool {
    forall|i: int| 0 <= i < s.len() ==> is_lower_slug_char(#[trigger] s[i])
}

/// `s` holds no ASCII capital letter.
pub open spec fn has_no_ascii_upper(s: Seq<char>) -> bool {
    forall|i: int| 0 <= i < s.len() ==> !('A' <= #[trigger] s[i] && s[i] <= 'Z')
}

/// `str::to_lowercase`: the text mapped character by character to its Unicode
/// lowercase form. Its documentation defines the mapping by the Unicode character
/// database: a character without a lowercase mapping (among them `a`–`z`, `0`–`9` and
/// `-`) comes back as itself, and no character maps to an ASCII capital. The mapping of other characters is left to the name `lowercase`.
#[verifier::external_body]
fn to_lowercase(s: &str) -> (r: String)
    ensures
        r@ == lowercase(s@),
        has_no_ascii_upper(r@),
        has_only_slug_chars(s@) ==> r@ == s@,
{
    s.to_lowercase()
}

/// `char::is_ascii_alphanumeric`.
pub open spec fn is_ascii_alphanumeric(c: char) -> bool {
    ('0' <= c && c <= '9') || ('a' <= c && c <= 'z') || ('A' <= c && c <= 'Z')
}

/// Left-to-right scan of `s`: ASCII alphanumerics are kept, and a run of other
/// characters becomes one `-` once some character has been kept. Returns the text
/// built so far and whether it ends with such a `-`.
pub open spec fn slug_scan(s: Seq<char>) -> (Seq<char>, bool)
    decreases s.len(),
{
    if s.len() == 0 {
        (Seq::empty(), false)
    } else {
        let (out, prev_hyphen) = slug_scan(s.drop_last());
        let c = s.last();
        if is_ascii_alphanumeric(c) {
            (out.push(c), false)
        } else if !prev_hyphen && out.len() > 0 {
            (out.push('-'), true)
        } else {
            (out, prev_hyphen)
        }
    }
}

/// `s` without its trailing `-` characters.
pub open spec fn strip_trailing_hyphens(s: Seq<char>) -> Seq<char>
    decreases s.len(),
{
    if s.len() > 0 && s.last() == '-' {
        strip_trailing_hyphens(s.drop_last())
    } else {
        s
    }
}

/// Slug base of an already lowercased title; `"movie"` when nothing is left.
pub open spec fn slug_of_lowercased(s: Seq<char>) -> Seq<char> {
    let stripped = strip_trailing_hyphens(slug_scan(s).0);
    if stripped.len() == 0 {
        "movie"@
    } else {
        stripped
    }
}

/// Slug base of a title: its lowercase form, slugified.
pub open spec fn spec_slugify_title(title: Seq<char>) -> Seq<char> {
    slug_of_lowercased(lowercase(title))
}

/// Slug base from an already lowercased title: non-alphanumeric runs become single
/// hyphens, leading and trailing hyphens are dropped; empty → `"movie"`.
pub fn slugify_lowercased(lower: &str) -> (r: String)
    ensures
        r@ == slug_of_lowercased(lower@),
{
    let chars = to_chars(lower);
    let mut out = String::new();
    let mut prev_hyphen = false;
    let mut i: usize = 0;
    while i < chars.len()
        invariant
            i <= chars@.len(),
            chars@ == lower@,
            (out@, prev_hyphen) == slug_scan(chars@.take(i as int)),
        decreases chars@.len() - i,
    {
        let ch = chars[i];
        proof {
            assert(chars@.take(i + 1).drop_last() =~= chars@.take(i as int));
        }
        let alnum = ('0' <= ch && ch <= '9') || ('a' <= ch && ch <= 'z') || ('A' <= ch && ch
            <= 'Z');
        if alnum {
            push_char(&mut out, ch);
            prev_hyphen = false;
        } else if !prev_hyphen && out.as_str().unicode_len() > 0 {
            push_char(&mut out, '-');
            prev_hyphen = true;
        }
        i = i + 1;
    }
    assert(chars@.take(i as int) =~= chars@);
    let ghost scanned = out@;
    let mut v = to_chars(out.as_str());
    let mut n: usize = v.len();
    assert(v@.take(n as int) =~= v@);
    while n > 0 && v[n - 1] == '-'
        invariant
            n <= v@.len(),
            strip_trailing_hyphens(v@.take(n as int)) == strip_trailing_hyphens(scanned),
            v@ == scanned,
        decreases n,
    {
        assert(v@.take(n - 1) =~= v@.take(n as int).drop_last());
        n = n - 1;
    }
    if n == 0 {
        let mut r = String::new();
        push_str(&mut r, "movie");
        proof {
            assert(strip_trailing_hyphens(v@.take(0)).len() == 0);
        }
        assert(r@ =~= "movie"@);
        r
    } else {
        let r = crate::text::string_of(&v, 0, n);
        proof {
            assert(v@.take(n as int).last() != '-');
            assert(strip_trailing_hyphens(v@.take(n as int)) == v@.take(n as int));
            assert(r@ =~= v@.take(n as int));
        }
        r
    }
}

/// Text built only from ASCII alphanumerics and single hyphens, with no hyphen at
/// either end.
pub open spec fn is_slug_shaped(s: Seq<char>) -> bool {
    &&& s.len() > 0
    &&& forall|i: int| 0 <= i < s.len() ==> is_ascii_alphanumeric(#[trigger] s[i]) || s[i] == '-'
    &&& s[0] != '-'
    &&& s.last() != '-'
    &&& forall|i: int| 0 <= i < s.len() - 1 ==> !(#[trigger] s[i] == '-' && s[i + 1] == '-')
}

proof fn lemma_slug_scan(s: Seq<char>)
    ensures
        ({
            let (o, p) = slug_scan(s);
            &&& p == (o.len() > 0 && o.last() == '-')
            &&& forall|i: int| 0 <= i < o.len() ==> is_ascii_alphanumeric(#[trigger] o[i]) || o[i] == '-'
            &&& o.len() > 0 ==> o[0] != '-'
            &&& forall|i: int| 0 <= i < o.len() - 1 ==> !(#[trigger] o[i] == '-' && o[i + 1] == '-')
        }),
    decreases s.len(),
{
    if s.len() > 0 {
        lemma_slug_scan(s.drop_last());
        let (o, p) = slug_scan(s.drop_last());
        let (o2, p2) = slug_scan(s);
        assert forall|i: int| 0 <= i < o2.len() - 1 implies !(#[trigger] o2[i] == '-' && o2[i + 1] == '-') by {
            if i < o.len() - 1 {
                assert(o2[i] == o[i] && o2[i + 1] == o[i + 1]);
            }
        }
        assert forall|i: int| 0 <= i < o2.len() implies is_ascii_alphanumeric(#[trigger] o2[i]) || o2[i] == '-' by {
            if i < o.len() {
                assert(o2[i] == o[i]);
            }
        }
    }
}

proof fn lemma_strip_trailing_hyphens(s: Seq<char>)
    ensures
        strip_trailing_hyphens(s) == s.take(strip_trailing_hyphens(s).len() as int),
        strip_trailing_hyphens(s).len() <= s.len(),
        strip_trailing_hyphens(s).len() > 0 ==> strip_trailing_hyphens(s).last() != '-',
    decreases s.len(),
{
    if s.len() > 0 && s.last() == '-' {
        lemma_strip_trailing_hyphens(s.drop_last());
        let t = strip_trailing_hyphens(s.drop_last());
        assert(s.drop_last().take(t.len() as int) =~= s.take(t.len() as int));
    } else {
        assert(s.take(s.len() as int) =~= s);
    }
}

proof fn lemma_slug_scan_no_upper(s: Seq<char>)
    requires
        has_no_ascii_upper(s),
    ensures
        has_no_ascii_upper(slug_scan(s).0),
    decreases s.len(),
{
    if s.len() > 0 {
        let d = s.drop_last();
        assert forall|i: int| 0 <= i < d.len() implies !('A' <= #[trigger] d[i] && d[i] <= 'Z') by {
            assert(d[i] == s[i]);
        }
        lemma_slug_scan_no_upper(d);
        let o = slug_scan(d).0;
        let o2 = slug_scan(s).0;
        assert(!('A' <= s[s.len() - 1] && s[s.len() - 1] <= 'Z'));
        assert forall|i: int| 0 <= i < o2.len() implies !('A' <= #[trigger] o2[i] && o2[i] <= 'Z') by {
            if i < o.len() {
                assert(o2[i] == o[i]);
            }
        }
    }
}

/// Scanning a slug-shaped text keeps every prefix of it as it is.
proof fn lemma_scan_of_slug(t: Seq<char>, n: int)
    requires
        is_slug_shaped(t),
        1 <= n <= t.len(),
    ensures
        slug_scan(t.take(n)) == (t.take(n), t[n - 1] == '-'),
    decreases n,
{
    let p = t.take(n);
    assert(p.last() == t[n - 1]);
    if n == 1 {
        assert(p.drop_last() =~= Seq::<char>::empty());
        assert(slug_scan(p.drop_last()) == (Seq::<char>::empty(), false));
        assert(is_ascii_alphanumeric(t[0]) || t[0] == '-');
        assert(p =~= Seq::<char>::empty().push(t[0]));
    } else {
        lemma_scan_of_slug(t, n - 1);
        assert(p.drop_last() =~= t.take(n - 1));
        assert(is_ascii_alphanumeric(t[n - 1]) || t[n - 1] == '-');
        if t[n - 1] == '-' {
            assert(!(t[n - 2] == '-' && t[n - 1] == '-'));
        }
        assert(t.take(n - 1).push(t[n - 1]) =~= p);
    }
}

/// A slug base is its own slug base: slugifying it again changes nothing.
pub proof fn lemma_slug_idempotent(lower: Seq<char>)
    ensures
        slug_of_lowercased(slug_of_lowercased(lower)) == slug_of_lowercased(lower),
{
    lemma_slug_shape(lower);
    lemma_slug_of_slug(slug_of_lowercased(lower));
}

/// A slug-shaped text is its own slug base.
pub proof fn lemma_slug_of_slug(t: Seq<char>)
    requires
        is_slug_shaped(t),
    ensures
        slug_of_lowercased(t) == t,
{
    lemma_scan_of_slug(t, t.len() as int);
    assert(t.take(t.len() as int) =~= t);
    assert(slug_scan(t).0 == t);
    assert(strip_trailing_hyphens(t) == t);
}

/// A slug base of text without ASCII capitals holds only `a`–`z`, `0`–`9` and `-`.
pub proof fn lemma_slug_lowercase(lower: Seq<char>)
    requires
        has_no_ascii_upper(lower),
    ensures
        has_no_ascii_upper(slug_of_lowercased(lower)),
        has_only_slug_chars(slug_of_lowercased(lower)),
{
    lemma_slug_shape(lower);
    lemma_slug_scan_no_upper(lower);
    let o = slug_scan(lower).0;
    lemma_strip_trailing_hyphens(o);
    let t = strip_trailing_hyphens(o);
    let r = slug_of_lowercased(lower);
    if t.len() == 0 {
        reveal_strlit("movie");
    } else {
        assert forall|i: int| 0 <= i < t.len() implies !('A' <= #[trigger] t[i] && t[i] <= 'Z') by {
            assert(t[i] == o[i]);
        }
    }
    assert forall|i: int| 0 <= i < r.len() implies is_lower_slug_char(#[trigger] r[i]) by {
        assert(is_ascii_alphanumeric(r[i]) || r[i] == '-');
        assert(!('A' <= r[i] && r[i] <= 'Z'));
    }
}

/// A slug base is never empty, holds only ASCII alphanumerics and single hyphens,
/// and neither starts nor ends with a hyphen.
pub proof fn lemma_slug_shape(lower: Seq<char>)
    ensures
        is_slug_shaped(slug_of_lowercased(lower)),
{
    lemma_slug_scan(lower);
    let o = slug_scan(lower).0;
    lemma_strip_trailing_hyphens(o);
    let t = strip_trailing_hyphens(o);
    if t.len() == 0 {
        reveal_strlit("movie");
        let m = "movie"@;
        assert(forall|i: int| 0 <= i < m.len() ==> is_ascii_alphanumeric(#[trigger] m[i]));
    } else {
        assert forall|i: int| 0 <= i < t.len() implies is_ascii_alphanumeric(#[trigger] t[i]) || t[i] == '-' by {
            assert(t[i] == o[i]);
        }
        assert forall|i: int| 0 <= i < t.len() - 1 implies !(#[trigger] t[i] == '-' && t[i + 1] == '-') by {
            assert(t[i] == o[i] && t[i + 1] == o[i + 1]);
        }
        assert(t[0] == o[0]);
    }
}

/// Lowercase slug base from a title: non-alphanumeric runs become single hyphens;
/// empty → `"movie"`. The slug holds only `a`–`z`, `0`–`9` and single inner hyphens,
/// and slugifying a slug gives it back.
pub fn slugify_title(title: &str) -> (r: String)
    ensures
        r@ == spec_slugify_title(title@),
        is_slug_shaped(r@),
        has_only_slug_chars(r@),
        is_slug_shaped(title@) && has_only_slug_chars(title@) ==> r@ == title@,
{
    let lower = to_lowercase(title);
    proof {
        lemma_slug_shape(lower@);
        lemma_slug_lowercase(lower@);
        if is_slug_shaped(title@) && has_only_slug_chars(title@) {
            lemma_slug_of_slug(title@);
        }
    }
    slugify_lowercased(lower.as_str())
}

/// Public movie identifier: `{slugify(title)}-{id}`.
pub open spec fn spec_movie_slug(title: Seq<char>, id: i64) -> Seq<char> {
    spec_slugify_title(title) + "-"@ + int_text(id as int)
}

/// Public movie identifier: `{slugify(title)}-{id}`.
pub fn movie_slug(title: &str, id: i64) -> (r: String)
    ensures
        r@ == spec_movie_slug(title@, id),
{
    let mut r = slugify_title(title);
    push_char(&mut r, '-');
    push_i64(&mut r, id);
    proof {
        reveal_strlit("-");
    }
    assert(r@ =~= spec_movie_slug(title@, id));
    r
}

} // verus!
