use pixiv_popular::request::{build_request_url, SearchRequest, Selection, ANNOUNCEMENT};

fn request(term: &str, recent: bool, permanent: bool, simple: bool) -> SearchRequest {
    SearchRequest { term: term.to_string(), recent, permanent, simple }
}

fn count_occurrences(hay: &str, needle: &str) -> usize {
    let hay: Vec<char> = hay.chars().collect();
    let needle: Vec<char> = needle.chars().collect();
    let mut count = 0;
    let mut at = 0;
    while at + needle.len() <= hay.len() {
        if hay[at..at + needle.len()] == needle[..] {
            count += 1;
        }
        at += 1;
    }
    count
}

#[test]
fn request_url_of_plain_term() {
    assert_eq!(
        build_request_url("cat"),
        "https://www.pixiv.net/ajax/search/artworks/cat?word=cat&lang=en"
    );
}

#[test]
fn request_url_holds_alphanumeric_term_exactly_twice() {
    for term in ["cat", "Miku01", "0", "Z9z"] {
        let url = build_request_url(term);
        assert_eq!(count_occurrences(&url, term), 2, "term {term}");
        assert!(url.ends_with("&lang=en"));
        let head = "https://www.pixiv.net/ajax/search/artworks/";
        assert_eq!(url.find(term), Some(head.len()));
        assert_eq!(url.rfind(term), Some(head.len() + term.len() + "?word=".len()));
    }
}

#[test]
fn request_url_holds_a_part_of_its_fixed_text_more_often() {
    // "a" stands in "ajax", "search", "artworks" and "lang" as well.
    let url = build_request_url("a");
    assert_eq!(url, "https://www.pixiv.net/ajax/search/artworks/a?word=a&lang=en");
    assert_eq!(count_occurrences(&url, "a"), 7);
}

#[test]
fn request_url_ends_with_language_for_any_term() {
    for term in ["", "a b", "x&y=z", "初音ミク", "?word="] {
        assert!(build_request_url(term).ends_with("&lang=en"));
    }
}

#[test]
fn request_url_places_term_verbatim() {
    assert_eq!(
        build_request_url("a b&c"),
        "https://www.pixiv.net/ajax/search/artworks/a b&c?word=a b&c&lang=en"
    );
    assert_eq!(
        build_request_url("初音ミク"),
        "https://www.pixiv.net/ajax/search/artworks/初音ミク?word=初音ミク&lang=en"
    );
}

#[test]
fn request_url_of_empty_term() {
    assert_eq!(build_request_url(""), "https://www.pixiv.net/ajax/search/artworks/?word=&lang=en");
}

#[test]
fn search_request_builds_the_url_of_its_term() {
    let asked = request("fox", true, false, true);
    assert_eq!(asked.url(), "https://www.pixiv.net/ajax/search/artworks/fox?word=fox&lang=en");
    assert_eq!(asked.url(), build_request_url("fox"));
}

#[test]
fn announcement_is_made_unless_simple() {
    assert_eq!(
        request("fox", false, false, false).announcement(),
        Some("Sending request to Pixiv API...".to_string())
    );
    assert_eq!(request("fox", true, true, false).announcement(), Some(ANNOUNCEMENT.to_string()));
    assert_eq!(request("fox", false, false, true).announcement(), None);
    assert_eq!(request("fox", true, false, true).announcement(), None);
}

#[test]
fn selection_follows_the_flags() {
    assert_eq!(request("fox", false, false, false).selection(), Selection::Both);
    assert_eq!(request("fox", true, false, false).selection(), Selection::RecentOnly);
    assert_eq!(request("fox", false, true, false).selection(), Selection::PermanentOnly);
    assert_eq!(request("fox", true, true, false).selection(), Selection::Both);
}

#[test]
fn selection_ignores_simple_output() {
    for simple in [false, true] {
        assert_eq!(request("fox", true, false, simple).selection(), Selection::RecentOnly);
        assert_eq!(request("fox", false, true, simple).selection(), Selection::PermanentOnly);
    }
}
