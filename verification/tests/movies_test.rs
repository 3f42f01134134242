use cinema_booking::db::entities::movies::{movie_slug, slugify_lowercased, slugify_title, MovieChangeset};

#[test]
fn slugify_title_basic() {
    assert_eq!(slugify_title("Demo: Midnight Express"), "demo-midnight-express");
    assert_eq!(slugify_title("Hurl integration movie"), "hurl-integration-movie");
}

#[test]
fn movie_slug_format() {
    assert_eq!(movie_slug("Demo: Midnight Express", 1), "demo-midnight-express-1");
}

#[test]
fn slug_of_empty_or_symbol_title_is_movie() {
    assert_eq!(slugify_title(""), "movie");
    assert_eq!(slugify_title("!!! ???"), "movie");
    assert_eq!(movie_slug("", 42), "movie-42");
}

#[test]
fn slug_drops_leading_and_trailing_separators() {
    assert_eq!(slugify_title("  --Hello,   World!!  "), "hello-world");
    assert_eq!(slugify_lowercased("a--b__c"), "a-b-c");
}

#[test]
fn slug_keeps_digits_and_negative_ids() {
    assert_eq!(slugify_title("2001: A Space Odyssey"), "2001-a-space-odyssey");
    assert_eq!(movie_slug("X", -7), "x--7");
}

#[test]
fn movie_changeset_rules() {
    let ok = MovieChangeset {
        title: "T".to_string(),
        movie_time: "in 5 min".to_string(),
        row_count: 1,
        seats_per_row: 1,
    };
    assert!(ok.validate().is_ok());
    let bad = MovieChangeset {
        title: String::new(),
        movie_time: "x".repeat(33),
        row_count: 0,
        seats_per_row: -1,
    };
    let err = bad.validate().unwrap_err();
    assert_eq!(err.fields, vec!["title", "movie_time", "row_count", "seats_per_row"]);
    assert_eq!(err.message(), "invalid fields: title, movie_time, row_count, seats_per_row");
}

#[test]
fn slugs_are_lowercase_and_stable() {
    for title in ["Café 2", "!!!", "Demo: Midnight Express", "--A  b--", "x"] {
        let slug = slugify_title(title);
        assert!(slug.chars().all(|c| c.is_ascii_lowercase() || c.is_ascii_digit() || c == '-'), "{slug}");
        assert_eq!(slugify_lowercased(&slug), slug);
        assert_eq!(slugify_title(&slug), slug);
    }
    assert_eq!(slugify_title("Café 2"), "caf-2");
    assert_eq!(slugify_title("!!!"), "movie");
}
