//! From the service's answer to what the program prints and how it ends.

use vstd::prelude::*;
use vstd::string::*;
use crate::json::{json_of, parse, parsed, pretty, pretty_text, Json};
use crate::payload::{
    error_flagged, listing_of, popular_of, read_listing, reports_error, PERMANENT_KEY, RECENT_KEY,
};
use crate::post::{
    artwork_url, lemma_listing_of_concatenation, lemma_simple_listing, listing_lines, post_views,
    render_posts, Post, PostList, PostListView, PostView,
};
use crate::request::{selection_of, SearchRequest, SearchRequestView, Selection};
use crate::text::{occurs_at, texts};

verus! {

/// Opens the report of an error that the service flagged; the document follows.
pub const ERROR_NOTICE: &'static str = "The pixiv API returned an Error:";

/// Opens the notice of an empty result; the search term follows.
pub const EMPTY_NOTICE_HEAD: &'static str = "Pixiv API returned an empty list, ";

/// Closes the notice of an empty result.
pub const EMPTY_NOTICE_TAIL: &'static str = " is probably not a valid Pixiv Tag!";

/// Heads the permanently popular posts in verbose output.
pub const PERMANENT_HEADER: &'static str = "Showing permanently popular posts: ";

/// Heads the recently popular posts in verbose output.
pub const RECENT_HEADER: &'static str = "Showing recently popular posts: ";

/// Tells that the answer was no JSON document.
pub const DECODE_NOTICE: &'static str = "Pixiv API response could not be parsed as JSON.";

/// Tells that the answer was JSON of an unexpected shape.
pub const SHAPE_NOTICE: &'static str =
    "Pixiv API response did not contain [\"body\"][\"popular\"], this means that pixiv has changed the way the API works.";

/// The popularity mode of a list.
#[derive(Clone, Copy, Debug, PartialEq, Eq, Structural)]
pub enum Section {
    Permanent,
    Recent,
}

/// How a run that got an answer ends without failing.
#[derive(Clone, Copy, Debug, PartialEq, Eq, Structural)]
pub enum Outcome {
    /// The service flagged its answer as an error; the answer is shown as it came.
    ErrorReported,
    /// Both lists are empty; the term probably does not exist.
    EmptyResult,
    /// The selected lists were rendered.
    Rendered,
}

/// Why a run fails. Every failure ends the program with a non-zero status and
/// before any post is printed.
#[derive(Clone, Debug, PartialEq, Eq)]
pub enum Failure {
    /// The request did not get through; holds the transport's own words.
    Transport(String),
    /// The answer is no JSON document.
    Decode,
    /// The answer is JSON but lacks the expected lists or fields.
    ShapeMismatch,
}

/// What a run prints, and how it ended.
#[derive(Clone, Debug, PartialEq, Eq)]
pub struct Report {
    pub outcome: Outcome,
    /// The output in order; each entry is written followed by a line break.
    /// An entry is one line, but for the dump of a flagged document, which
    /// spans several.
    pub lines: Vec<String>,
    /// Whether the elapsed time is printed after the lines.
    pub timed: bool,
}

/// A report with its lines as character sequences.
pub struct ReportView {
    pub outcome: Outcome,
    pub lines: Seq<Seq<char>>,
    pub timed: bool,
}

impl View for Report {
    type V = ReportView;

    open spec fn view(&self) -> ReportView {
        ReportView { outcome: self.outcome, lines: texts(self.lines@), timed: self.timed }
    }
}

/// A result with its report, if any, as its view.
pub open spec fn result_view(result: Result<Report, Failure>) -> Result<ReportView, Failure> {
    match result {
        Ok(report) => Ok(report@),
        Err(failure) => Err(failure),
    }
}

/// The header that names a popularity mode.
pub open spec fn header_of(section: Section) -> Seq<char> {
    match section {
        Section::Permanent => PERMANENT_HEADER@,
        Section::Recent => RECENT_HEADER@,
    }
}

/// The lines of one list. Verbose output heads the posts with two blank lines
/// and the header of the list; simple output has the posts alone.
pub open spec fn section_lines(section: Section, posts: Seq<PostView>, simple: bool) -> Seq<
    Seq<char>,
> {
    if simple {
        listing_lines(posts, true)
    } else {
        seq![Seq::empty(), Seq::empty(), header_of(section)] + listing_lines(posts, false)
    }
}

/// The lines of the selected lists; where both are shown, the permanently
/// popular posts come first.
pub open spec fn selected_lines(list: PostListView, selection: Selection, simple: bool) -> Seq<
    Seq<char>,
> {
    match selection {
        Selection::PermanentOnly => section_lines(Section::Permanent, list.permanent, simple),
        Selection::RecentOnly => section_lines(Section::Recent, list.recent, simple),
        Selection::Both => section_lines(Section::Permanent, list.permanent, simple)
            + section_lines(Section::Recent, list.recent, simple),
    }
}

/// The posts of the selected lists, in the order in which they are rendered.
pub open spec fn selected_posts(list: PostListView, selection: Selection) -> Seq<PostView> {
    match selection {
        Selection::PermanentOnly => list.permanent,
        Selection::RecentOnly => list.recent,
        Selection::Both => list.permanent + list.recent,
    }
}

/// The notice of an empty result, which names the term.
pub open spec fn empty_notice(term: Seq<char>) -> Seq<char> {
    EMPTY_NOTICE_HEAD@ + term + EMPTY_NOTICE_TAIL@
}

/// The report of an error that the service flagged: a notice, then the whole
/// document in indented form. It is the same whatever the request's flags.
pub open spec fn error_report(document: Json) -> ReportView {
    ReportView {
        outcome: Outcome::ErrorReported,
        lines: seq![ERROR_NOTICE@, pretty_text(document)],
        timed: false,
    }
}

/// The report of an empty result: a blank line, then the notice.
pub open spec fn empty_report(term: Seq<char>) -> ReportView {
    ReportView {
        outcome: Outcome::EmptyResult,
        lines: seq![Seq::empty(), empty_notice(term)],
        timed: false,
    }
}

/// The report that renders the lists which the request selects.
pub open spec fn rendered_report(list: PostListView, request: SearchRequestView) -> ReportView {
    ReportView {
        outcome: Outcome::Rendered,
        lines: selected_lines(
            list,
            selection_of(request.recent, request.permanent),
            request.simple,
        ),
        timed: true,
    }
}

/// What a JSON document leads to, in this order: a flagged error is reported;
/// a document without the two lists is a failure; two empty lists give the
/// empty-result notice; anything else is rendered.
pub open spec fn verdict(request: SearchRequestView, document: Json) -> Result<
    ReportView,
    Failure,
> {
    if error_flagged(document) {
        Ok(error_report(document))
    } else {
        match listing_of(document) {
            None => Err(Failure::ShapeMismatch),
            Some(list) => if list.recent.len() == 0 && list.permanent.len() == 0 {
                Ok(empty_report(request.term))
            } else {
                Ok(rendered_report(list, request))
            },
        }
    }
}

/// What a response body leads to: a body that is no JSON document is a
/// failure; a document leads to its verdict.
pub open spec fn response_verdict(request: SearchRequestView, body: Seq<char>) -> Result<
    ReportView,
    Failure,
> {
    match parsed(body) {
        None => Err(Failure::Decode),
        Some(document) => verdict(request, document),
    }
}

/// The status with which the program ends: zero unless the run failed.
pub open spec fn exit_code_of(result: Result<ReportView, Failure>) -> int {
    match result {
        Ok(_) => 0,
        Err(_) => 1,
    }
}

impl Failure {
    /// The words that describe this failure.
    pub open spec fn message_text(self) -> Seq<char> {
        match self {
            Failure::Transport(words) => words@,
            Failure::Decode => DECODE_NOTICE@,
            Failure::ShapeMismatch => SHAPE_NOTICE@,
        }
    }

    /// The message to show the user.
    pub fn message(&self) -> (message: String)
        ensures
            message@ == self.message_text(),
    {
        match self {
            Failure::Transport(words) => words.clone(),
            Failure::Decode => String::from_str(DECODE_NOTICE),
            Failure::ShapeMismatch => String::from_str(SHAPE_NOTICE),
        }
    }
}

/// The status with which the program ends after `result`.
pub fn exit_code(result: &Result<Report, Failure>) -> (code: i32)
    ensures
        code == exit_code_of(result_view(*result)),
{
    match result {
        Ok(_) => 0,
        Err(_) => 1,
    }
}

/// Renders one list, with its header unless simple output is asked for.
pub fn render_section(section: Section, posts: &Vec<Post>, simple: bool) -> (lines: Vec<String>)
    ensures
        texts(lines@) == section_lines(section, post_views(posts@), simple),
{
    let mut lines: Vec<String> = Vec::new();
    if !simple {
        lines.push(String::new());
        lines.push(String::new());
        match section {
            Section::Permanent => lines.push(String::from_str(PERMANENT_HEADER)),
            Section::Recent => lines.push(String::from_str(RECENT_HEADER)),
        }
    }
    let mut listing = render_posts(posts, simple);
    proof {
        assert(texts(lines@ + listing@) =~= texts(lines@) + texts(listing@));
        assert(texts(lines@) =~= if simple {
            Seq::empty()
        } else {
            seq![Seq::empty(), Seq::empty(), header_of(section)]
        });
    }
    lines.append(&mut listing);
    assert(texts(lines@) =~= section_lines(section, post_views(posts@), simple));
    lines
}

/// Renders the selected lists; where both are shown, the permanently popular
/// posts come first.
pub fn render_selected(list: &PostList, selection: Selection, simple: bool) -> (lines: Vec<
    String,
>)
    ensures
        texts(lines@) == selected_lines(list@, selection, simple),
{
    match selection {
        Selection::PermanentOnly => render_section(Section::Permanent, &list.permanent, simple),
        Selection::RecentOnly => render_section(Section::Recent, &list.recent, simple),
        Selection::Both => {
            let mut lines = render_section(Section::Permanent, &list.permanent, simple);
            let mut rest = render_section(Section::Recent, &list.recent, simple);
            proof {
                assert(texts(lines@ + rest@) =~= texts(lines@) + texts(rest@));
            }
            lines.append(&mut rest);
            lines
        },
    }
}

/// Decides what a JSON document leads to, and renders it.
pub fn interpret(request: &SearchRequest, document: &serde_json::Value) -> (result: Result<
    Report,
    Failure,
>)
    ensures
        result_view(result) == verdict(request@, json_of(*document)),
{
    if reports_error(document) {
        let mut lines: Vec<String> = Vec::new();
        lines.push(String::from_str(ERROR_NOTICE));
        lines.push(pretty(document));
        assert(texts(lines@) =~= error_report(json_of(*document)).lines);
        return Ok(Report { outcome: Outcome::ErrorReported, lines, timed: false });
    }
    let list = match read_listing(document) {
        Some(list) => list,
        None => { return Err(Failure::ShapeMismatch); },
    };
    if list.recent.len() == 0 && list.permanent.len() == 0 {
        let mut lines: Vec<String> = Vec::new();
        lines.push(String::new());
        lines.push(
            String::from_str(EMPTY_NOTICE_HEAD).concat(request.term.as_str()).concat(
                EMPTY_NOTICE_TAIL,
            ),
        );
        assert(texts(lines@) =~= empty_report(request@.term).lines);
        return Ok(Report { outcome: Outcome::EmptyResult, lines, timed: false });
    }
    let lines = render_selected(&list, request.selection(), request.simple);
    Ok(Report { outcome: Outcome::Rendered, lines, timed: true })
}

/// Decides what a response body leads to: parses it and interprets the document.
pub fn respond(request: &SearchRequest, body: &str) -> (result: Result<Report, Failure>)
    ensures
        result_view(result) == response_verdict(request@, body@),
{
    match parse(body) {
        Ok(document) => interpret(request, &document),
        Err(_) => Err(Failure::Decode),
    }
}

/// Decides how a run ends once the request has been made. `fetched` is the
/// response body, or the transport's own words where the request did not get
/// through; those words are handed on unchanged.
pub fn conclude(request: &SearchRequest, fetched: Result<String, String>) -> (result: Result<
    Report,
    Failure,
>)
    ensures
        match fetched {
            Ok(body) => result_view(result) == response_verdict(request@, body@),
            Err(words) => result == Err::<Report, Failure>(Failure::Transport(words)),
        },
{
    match fetched {
        Ok(body) => respond(request, body.as_str()),
        Err(words) => Err(Failure::Transport(words)),
    }
}

/// Whatever the request's flags, a document that the service flagged as an
/// error ends the run successfully with the notice and the whole document:
/// no post is rendered.
pub proof fn lemma_flagged_error_is_reported(request: SearchRequestView, document: Json)
    requires
        error_flagged(document),
    ensures
        verdict(request, document) == Ok::<ReportView, Failure>(error_report(document)),
        error_report(document).lines == seq![ERROR_NOTICE@, pretty_text(document)],
        exit_code_of(verdict(request, document)) == 0,
{
}

/// Where no error is flagged and both lists are empty, the run ends
/// successfully with a notice that holds the search term as it was given: no
/// post is rendered.
pub proof fn lemma_empty_lists_give_notice(request: SearchRequestView, document: Json)
    requires
        !error_flagged(document),
        listing_of(document) matches Some(list) && list.recent.len() == 0 && list.permanent.len()
            == 0,
    ensures
        verdict(request, document) == Ok::<ReportView, Failure>(empty_report(request.term)),
        empty_report(request.term).lines == seq![Seq::empty(), empty_notice(request.term)],
        occurs_at(empty_notice(request.term), request.term, EMPTY_NOTICE_HEAD@.len() as int),
        exit_code_of(verdict(request, document)) == 0,
{
    let notice = empty_notice(request.term);
    let at: int = EMPTY_NOTICE_HEAD@.len() as int;
    assert(notice.subrange(at, at + request.term.len()) =~= request.term);
}

/// Where no error is flagged, a document that lacks the list of recently
/// popular posts, or that of permanently popular ones, is a shape mismatch:
/// the run fails and prints no post.
pub proof fn lemma_missing_list_is_mismatch(request: SearchRequestView, document: Json)
    requires
        !error_flagged(document),
        popular_of(document) matches Some(popular) ==> popular.field(RECENT_KEY@) is None
            || popular.field(PERMANENT_KEY@) is None,
    ensures
        verdict(request, document) == Err::<ReportView, Failure>(Failure::ShapeMismatch),
        exit_code_of(verdict(request, document)) != 0,
{
}

/// A response body that is no JSON document is a decode failure: the run
/// fails and prints no post.
pub proof fn lemma_non_json_is_decode_failure(request: SearchRequestView, body: Seq<char>)
    requires
        parsed(body) is None,
    ensures
        response_verdict(request, body) == Err::<ReportView, Failure>(Failure::Decode),
        exit_code_of(response_verdict(request, body)) != 0,
{
}

/// Without flags both lists are rendered, all permanently popular posts before
/// all recently popular ones; a single flag renders its list alone. Each list
/// keeps its order.
pub proof fn lemma_selection_order(list: PostListView, simple: bool)
    ensures
        selected_lines(list, selection_of(false, false), simple) == section_lines(
            Section::Permanent,
            list.permanent,
            simple,
        ) + section_lines(Section::Recent, list.recent, simple),
        selected_lines(list, selection_of(true, false), simple) == section_lines(
            Section::Recent,
            list.recent,
            simple,
        ),
        selected_lines(list, selection_of(false, true), simple) == section_lines(
            Section::Permanent,
            list.permanent,
            simple,
        ),
{
}

/// Simple output is nothing but artwork addresses: one line for each selected
/// post, in order, and no header, title or author line.
pub proof fn lemma_simple_output_is_addresses(list: PostListView, selection: Selection)
    ensures
        selected_lines(list, selection, true).len() == selected_posts(list, selection).len(),
        forall|i: int|
            0 <= i < selected_posts(list, selection).len() ==> #[trigger] selected_lines(
                list,
                selection,
                true,
            )[i] == artwork_url(selected_posts(list, selection)[i].id),
{
    lemma_listing_of_concatenation(list.permanent, list.recent, true);
    lemma_simple_listing(selected_posts(list, selection));
}

} // verus!
