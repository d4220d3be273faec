//! The search request: what the user asked for, and the address that asks the
//! service for it.

use vstd::prelude::*;
use vstd::string::*;
use crate::text::{ends_with, occurs_at, occurs_in, occurrences};

verus! {

/// Start of every search address; the term follows as a path segment.
pub const SEARCH_URL_HEAD: &'static str = "https://www.pixiv.net/ajax/search/artworks/";

/// Stands between the path segment and the repeated term.
pub const SEARCH_URL_WORD: &'static str = "?word=";

/// Asks for the English variant of the answer; closes every search address.
pub const SEARCH_URL_TAIL: &'static str = "&lang=en";

/// Told to the user before the request goes out, unless simple output is asked for.
pub const ANNOUNCEMENT: &'static str = "Sending request to Pixiv API...";

/// What the user asked for: the search term and three independent preferences.
#[derive(Clone, Debug, PartialEq, Eq)]
pub struct SearchRequest {
    /// The term to search for, as the user gave it.
    pub term: String,
    /// Show the recently popular posts.
    pub recent: bool,
    /// Show the permanently popular posts.
    pub permanent: bool,
    /// Print addresses only.
    pub simple: bool,
}

/// A request with its term as a character sequence.
pub struct SearchRequestView {
    pub term: Seq<char>,
    pub recent: bool,
    pub permanent: bool,
    pub simple: bool,
}

impl View for SearchRequest {
    type V = SearchRequestView;

    open spec fn view(&self) -> SearchRequestView {
        SearchRequestView {
            term: self.term@,
            recent: self.recent,
            permanent: self.permanent,
            simple: self.simple,
        }
    }
}

/// Which of the two popularity lists are shown.
#[derive(Clone, Copy, Debug, PartialEq, Eq, Structural)]
pub enum Selection {
    PermanentOnly,
    RecentOnly,
    Both,
}

/// The lists that the two flags select: one flag alone restricts the output to
/// its list; no flag, or both, shows both lists.
pub open spec fn selection_of(recent: bool, permanent: bool) -> Selection {
    if permanent && !recent {
        Selection::PermanentOnly
    } else if recent && !permanent {
        Selection::RecentOnly
    } else {
        Selection::Both
    }
}

/// What is told before the request goes out: nothing in simple output.
pub open spec fn announcement_of(simple: bool) -> Option<Seq<char>> {
    if simple {
        None
    } else {
        Some(ANNOUNCEMENT@)
    }
}

impl SearchRequest {
    /// The lists that this request selects.
    pub fn selection(&self) -> (selection: Selection)
        ensures
            selection == selection_of(self.recent, self.permanent),
    {
        if self.permanent && !self.recent {
            Selection::PermanentOnly
        } else if self.recent && !self.permanent {
            Selection::RecentOnly
        } else {
            Selection::Both
        }
    }

    /// The line to print before the request goes out, if any.
    pub fn announcement(&self) -> (line: Option<String>)
        ensures
            match line {
                Some(text) => announcement_of(self.simple) == Some(text@),
                None => announcement_of(self.simple) is None,
            },
    {
        if self.simple {
            None
        } else {
            Some(String::from_str(ANNOUNCEMENT))
        }
    }

    /// The address that asks the service for this request's term.
    pub fn url(&self) -> (url: String)
        ensures
            url@ == request_url(self@.term),
    {
        build_request_url(self.term.as_str())
    }
}

/// The address that queries the popular posts of `term`: the term is placed
/// verbatim, once as the last path segment and once as the `word` parameter.
/// Escaping is left to the client that sends the request.
pub open spec fn request_url(term: Seq<char>) -> Seq<char> {
    SEARCH_URL_HEAD@ + term + SEARCH_URL_WORD@ + term + SEARCH_URL_TAIL@
}

/// Where the term stands as the last path segment.
pub open spec fn path_position() -> int {
    SEARCH_URL_HEAD@.len() as int
}

/// Where the term stands as the `word` parameter.
pub open spec fn word_position(term: Seq<char>) -> int {
    (SEARCH_URL_HEAD@.len() + term.len() + SEARCH_URL_WORD@.len()) as int
}

/// Builds the search address for `term`.
pub fn build_request_url(term: &str) -> (url: String)
    ensures
        url@ == request_url(term@),
{
    String::from_str(SEARCH_URL_HEAD).concat(term).concat(SEARCH_URL_WORD).concat(term).concat(
        SEARCH_URL_TAIL,
    )
}

/// The characters that set the pieces of a search address apart. No letter and
/// no digit is among them.
pub open spec fn is_separator(c: char) -> bool {
    c == ':' || c == '/' || c == '.' || c == '?' || c == '=' || c == '&'
}

/// No character of `term` is a separator.
pub open spec fn separator_free(term: Seq<char>) -> bool {
    forall|i: int| 0 <= i < term.len() ==> !is_separator(#[trigger] term[i])
}

/// ASCII letters and digits.
pub open spec fn is_ascii_alphanumeric(c: char) -> bool {
    ('0' <= c && c <= '9') || ('a' <= c && c <= 'z') || ('A' <= c && c <= 'Z')
}

/// Every character of `term` is an ASCII letter or digit.
pub open spec fn alphanumeric(term: Seq<char>) -> bool {
    forall|i: int| 0 <= i < term.len() ==> is_ascii_alphanumeric(#[trigger] term[i])
}

/// `term` stands nowhere in the fixed text of a search address. A term of
/// letters and digits fails this only by being part of one of the words
/// `https`, `www`, `pixiv`, `net`, `ajax`, `search`, `artworks`, `word`, `lang`
/// and `en`.
pub open spec fn foreign_to_template(term: Seq<char>) -> bool {
    &&& !occurs_in(SEARCH_URL_HEAD@, term)
    &&& !occurs_in(SEARCH_URL_WORD@, term)
    &&& !occurs_in(SEARCH_URL_TAIL@, term)
}

/// Every search address closes with the language parameter.
pub proof fn lemma_request_url_ends_with_language(term: Seq<char>)
    ensures
        ends_with(request_url(term), SEARCH_URL_TAIL@),
{
    let url = request_url(term);
    let tail = SEARCH_URL_TAIL@;
    assert(url.subrange(url.len() - tail.len(), url.len() as int) =~= tail);
}

/// A non-empty term without separators that is no part of the fixed text
/// stands in its search address exactly twice: as the path segment and as the
/// `word` parameter, and nowhere else.
pub proof fn lemma_term_occurs_exactly_twice(term: Seq<char>)
    requires
        term.len() > 0,
        separator_free(term),
        foreign_to_template(term),
    ensures
        occurrences(request_url(term), term) == set![path_position(), word_position(term)],
        occurrences(request_url(term), term).len() == 2,
{
    reveal_strlit("https://www.pixiv.net/ajax/search/artworks/");
    reveal_strlit("?word=");
    reveal_strlit("&lang=en");
    let head = SEARCH_URL_HEAD@;
    let word = SEARCH_URL_WORD@;
    let tail = SEARCH_URL_TAIL@;
    let url = request_url(term);
    let n: int = term.len() as int;
    let p: int = path_position();
    let q: int = word_position(term);
    assert(head.len() == 43 && word.len() == 6 && tail.len() == 8);
    assert(url.subrange(p, p + n) =~= term);
    assert(url.subrange(q, q + n) =~= term);
    assert forall|at: int| occurs_at(url, term, at) implies at == p || at == q by {
        // A window that is neither of the two either lies within one fixed
        // piece, or covers the separator at the edge of one.
        let window = url.subrange(at, at + n);
        if at + n <= p {
            assert(head.subrange(at, at + n) =~= window);
            assert(occurs_at(head, term, at));
        } else if at < p {
            assert(window[p - 1 - at] == head[42]);
            assert(is_separator(term[p - 1 - at]));
        } else if at == p {
        } else if at <= p + n {
            assert(window[p + n - at] == word[0]);
            assert(is_separator(term[p + n - at]));
        } else if at + n <= q {
            assert(word.subrange(at - p - n, at - p) =~= window);
            assert(occurs_at(word, term, at - p - n));
        } else if at < q {
            assert(window[q - 1 - at] == word[5]);
            assert(is_separator(term[q - 1 - at]));
        } else if at == q {
        } else if at <= q + n {
            assert(window[q + n - at] == tail[0]);
            assert(is_separator(term[q + n - at]));
        } else {
            assert(tail.subrange(at - q - n, at - q) =~= window);
            assert(occurs_at(tail, term, at - q - n));
        }
    }
    assert(occurrences(url, term) =~= set![p, q]);
}

/// A non-empty term of letters and digits that is no part of the fixed text
/// stands in its search address exactly twice, and the address closes with the
/// language parameter.
pub proof fn lemma_alphanumeric_term_occurs_exactly_twice(term: Seq<char>)
    requires
        term.len() > 0,
        alphanumeric(term),
        foreign_to_template(term),
    ensures
        occurrences(request_url(term), term) == set![path_position(), word_position(term)],
        occurrences(request_url(term), term).len() == 2,
        ends_with(request_url(term), SEARCH_URL_TAIL@),
{
    assert(separator_free(term));
    lemma_term_occurs_exactly_twice(term);
    lemma_request_url_ends_with_language(term);
}

} // verus!
