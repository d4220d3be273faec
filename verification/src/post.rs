//! Posts and the canonical addresses derived from them.

use vstd::prelude::*;
use vstd::string::*;
use crate::text::{occurs_at, texts};

verus! {

/// Address under which every artwork page lives; the post id follows it.
pub const ARTWORK_URL_PREFIX: &'static str = "https://www.pixiv.net/en/artworks/";

/// Address under which every user profile lives; the user id follows it.
pub const USER_URL_PREFIX: &'static str = "https://www.pixiv.net/en/users/";

/// Opens the first line of a verbose block; the artwork address follows.
pub const POST_LABEL: &'static str = "Post: ";

/// Opens the title line of a verbose block.
pub const TITLE_LABEL: &'static str = "   -> Title: ";

/// Opens the author line of a verbose block; the author's name follows.
pub const AUTHOR_LABEL: &'static str = "   -> Posted by: ";

/// Stands between the author's name and the profile address.
pub const PROFILE_OPEN: &'static str = " (";

/// Closes the author line.
pub const PROFILE_CLOSE: &'static str = ")";

/// One artwork of a popularity list.
#[derive(Clone, Debug, PartialEq, Eq)]
pub struct Post {
    pub id: String,
    pub title: String,
    pub user_name: String,
    pub user_id: String,
}

/// A post as plain character sequences.
pub struct PostView {
    pub id: Seq<char>,
    pub title: Seq<char>,
    pub user_name: Seq<char>,
    pub user_id: Seq<char>,
}

impl View for Post {
    type V = PostView;

    open spec fn view(&self) -> PostView {
        PostView {
            id: self.id@,
            title: self.title@,
            user_name: self.user_name@,
            user_id: self.user_id@,
        }
    }
}

/// The two ranked lists of a search term, each in the service's own order.
#[derive(Clone, Debug, PartialEq, Eq)]
pub struct PostList {
    pub recent: Vec<Post>,
    pub permanent: Vec<Post>,
}

/// The two lists as sequences of post views.
pub struct PostListView {
    pub recent: Seq<PostView>,
    pub permanent: Seq<PostView>,
}

impl View for PostList {
    type V = PostListView;

    open spec fn view(&self) -> PostListView {
        PostListView {
            recent: post_views(self.recent@),
            permanent: post_views(self.permanent@),
        }
    }
}

/// The canonical artwork address of the post with the given id.
pub open spec fn artwork_url(id: Seq<char>) -> Seq<char> {
    ARTWORK_URL_PREFIX@ + id
}

/// The canonical profile address of the user with the given id.
pub open spec fn user_url(user_id: Seq<char>) -> Seq<char> {
    USER_URL_PREFIX@ + user_id
}

/// The first line of a verbose block.
pub open spec fn post_line(post: PostView) -> Seq<char> {
    POST_LABEL@ + artwork_url(post.id)
}

/// The title line of a verbose block.
pub open spec fn title_line(post: PostView) -> Seq<char> {
    TITLE_LABEL@ + post.title
}

/// The author line of a verbose block: the name, then the profile address in
/// parentheses.
pub open spec fn author_line(post: PostView) -> Seq<char> {
    AUTHOR_LABEL@ + post.user_name + PROFILE_OPEN@ + user_url(post.user_id) + PROFILE_CLOSE@
}

/// The simple form of a post: its artwork address and nothing else.
pub open spec fn simple_lines(post: PostView) -> Seq<Seq<char>> {
    seq![artwork_url(post.id)]
}

/// The verbose form of a post: address, title, author, and a blank line that
/// sets the block apart from the next.
pub open spec fn verbose_lines(post: PostView) -> Seq<Seq<char>> {
    seq![post_line(post), title_line(post), author_line(post), Seq::empty()]
}

/// The lines that one post is rendered as.
pub open spec fn post_lines(post: PostView, simple: bool) -> Seq<Seq<char>> {
    if simple {
        simple_lines(post)
    } else {
        verbose_lines(post)
    }
}

/// The lines that a list of posts is rendered as: post by post, in the order
/// of the list.
pub open spec fn listing_lines(posts: Seq<PostView>, simple: bool) -> Seq<Seq<char>>
    decreases posts.len(),
{
    if posts.len() == 0 {
        Seq::empty()
    } else {
        listing_lines(posts.drop_last(), simple) + post_lines(posts.last(), simple)
    }
}

/// The posts of a vector, each as its view.
pub open spec fn post_views(posts: Seq<Post>) -> Seq<PostView> {
    posts.map_values(|post: Post| post@)
}

impl Post {
    /// The canonical address of this artwork.
    pub fn get_pixiv_post_url(&self) -> (url: String)
        ensures
            url@ == artwork_url(self@.id),
    {
        String::from_str(ARTWORK_URL_PREFIX).concat(self.id.as_str())
    }

    /// The canonical address of the author's profile.
    pub fn get_pixiv_user_url(&self) -> (url: String)
        ensures
            url@ == user_url(self@.user_id),
    {
        String::from_str(USER_URL_PREFIX).concat(self.user_id.as_str())
    }

    /// Renders this post, in simple or in verbose form.
    pub fn render(&self, simple: bool) -> (lines: Vec<String>)
        ensures
            texts(lines@) == post_lines(self@, simple),
    {
        let mut lines: Vec<String> = Vec::new();
        if simple {
            lines.push(self.get_pixiv_post_url());
        } else {
            let post_url = self.get_pixiv_post_url();
            let profile_url = self.get_pixiv_user_url();
            lines.push(String::from_str(POST_LABEL).concat(post_url.as_str()));
            lines.push(String::from_str(TITLE_LABEL).concat(self.title.as_str()));
            lines.push(
                String::from_str(AUTHOR_LABEL).concat(self.user_name.as_str()).concat(
                    PROFILE_OPEN,
                ).concat(profile_url.as_str()).concat(PROFILE_CLOSE),
            );
            lines.push(String::new());
        }
        assert(texts(lines@) =~= post_lines(self@, simple));
        lines
    }
}

/// Renders every post of `posts`, in their order.
pub fn render_posts(posts: &Vec<Post>, simple: bool) -> (lines: Vec<String>)
    ensures
        texts(lines@) == listing_lines(post_views(posts@), simple),
{
    let mut lines: Vec<String> = Vec::new();
    let mut done: usize = 0;
    while done < posts.len()
        invariant
            done <= posts.len(),
            texts(lines@) == listing_lines(post_views(posts@).take(done as int), simple),
        decreases posts.len() - done,
    {
        let mut block = posts[done].render(simple);
        proof {
            let before = post_views(posts@).take(done as int);
            let after = post_views(posts@).take(done + 1);
            assert(after.drop_last() =~= before);
            assert(after.last() == posts@[done as int]@);
            assert(texts(lines@ + block@) =~= texts(lines@) + texts(block@));
        }
        lines.append(&mut block);
        done += 1;
    }
    assert(post_views(posts@).take(done as int) =~= post_views(posts@));
    lines
}

/// Rendering one list after another gives the lines of the first, then those
/// of the second.
pub proof fn lemma_listing_of_concatenation(
    first: Seq<PostView>,
    second: Seq<PostView>,
    simple: bool,
)
    ensures
        listing_lines(first + second, simple) == listing_lines(first, simple) + listing_lines(
            second,
            simple,
        ),
    decreases second.len(),
{
    if second.len() == 0 {
        assert(first + second =~= first);
    } else {
        lemma_listing_of_concatenation(first, second.drop_last(), simple);
        assert((first + second).drop_last() =~= first + second.drop_last());
        assert((first + second).last() == second.last());
    }
}

/// In simple form every post gives exactly one line, and that line is its
/// artwork address: no header, no title, no author.
pub proof fn lemma_simple_listing(posts: Seq<PostView>)
    ensures
        listing_lines(posts, true).len() == posts.len(),
        forall|i: int|
            0 <= i < posts.len() ==> #[trigger] listing_lines(posts, true)[i] == artwork_url(
                posts[i].id,
            ),
    decreases posts.len(),
{
    if posts.len() > 0 {
        lemma_simple_listing(posts.drop_last());
    }
}

/// In verbose form every post gives a block of four lines, and the blocks
/// stand in the order of the list: the block of post `i` begins at line `4 * i`.
pub proof fn lemma_verbose_listing(posts: Seq<PostView>)
    ensures
        listing_lines(posts, false).len() == 4 * posts.len(),
        forall|i: int|
            0 <= i < posts.len() ==> listing_lines(posts, false).subrange(4 * i, 4 * i + 4)
                == verbose_lines(#[trigger] posts[i]),
    decreases posts.len(),
{
    if posts.len() > 0 {
        let earlier = posts.drop_last();
        lemma_verbose_listing(earlier);
        let all = listing_lines(posts, false);
        assert forall|i: int| 0 <= i < posts.len() implies all.subrange(4 * i, 4 * i + 4)
            == verbose_lines(#[trigger] posts[i]) by {
            if i < earlier.len() {
                assert(earlier[i] == posts[i]);
                assert(all.subrange(4 * i, 4 * i + 4) =~= listing_lines(earlier, false).subrange(
                    4 * i,
                    4 * i + 4,
                ));
            } else {
                assert(all.subrange(4 * i, 4 * i + 4) =~= verbose_lines(posts.last()));
            }
        }
    }
}

/// The verbose block of a post has four lines: the first holds the artwork
/// address, the second the title, the third the author's name and, after it,
/// the address of the author's profile; the fourth is blank.
pub proof fn lemma_verbose_block_contents(post: PostView)
    ensures
        verbose_lines(post).len() == 4,
        occurs_at(verbose_lines(post)[0], artwork_url(post.id), POST_LABEL@.len() as int),
        occurs_at(verbose_lines(post)[1], post.title, TITLE_LABEL@.len() as int),
        occurs_at(verbose_lines(post)[2], post.user_name, AUTHOR_LABEL@.len() as int),
        occurs_at(
            verbose_lines(post)[2],
            user_url(post.user_id),
            (AUTHOR_LABEL@.len() + post.user_name.len() + PROFILE_OPEN@.len()) as int,
        ),
        verbose_lines(post)[3].len() == 0,
{
    let first = post_line(post);
    let second = title_line(post);
    let third = author_line(post);
    let url_at: int = POST_LABEL@.len() as int;
    let title_at: int = TITLE_LABEL@.len() as int;
    let name_at: int = AUTHOR_LABEL@.len() as int;
    let profile_at: int = name_at + post.user_name.len() + PROFILE_OPEN@.len();
    assert(first.subrange(url_at, url_at + artwork_url(post.id).len()) =~= artwork_url(post.id));
    assert(second.subrange(title_at, title_at + post.title.len()) =~= post.title);
    assert(third.subrange(name_at, name_at + post.user_name.len()) =~= post.user_name);
    assert(third.subrange(profile_at, profile_at + user_url(post.user_id).len()) =~= user_url(
        post.user_id,
    ));
}

} // verus!
