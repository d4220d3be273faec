//! Reading the service's answer: where the error flag and the two popularity
//! lists stand in the document, and which wire name fills which field of a post.

use vstd::prelude::*;
use vstd::string::*;
use crate::json::{flag_of, items_of, json_of, member, text_of, trees_of, Json};
use crate::post::{post_views, Post, PostList, PostListView, PostView};

verus! {

/// Top-level member that the service sets to `true` when it rejects a query.
pub const ERROR_KEY: &'static str = "error";

/// Top-level member that holds the results.
pub const BODY_KEY: &'static str = "body";

/// Member of the body that holds the two popularity lists.
pub const POPULAR_KEY: &'static str = "popular";

/// Member of the popularity lists that holds the recently popular posts.
pub const RECENT_KEY: &'static str = "recent";

/// Member of the popularity lists that holds the permanently popular posts.
pub const PERMANENT_KEY: &'static str = "permanent";

/// The fields of a post.
#[derive(Clone, Copy, Debug, PartialEq, Eq, Structural)]
pub enum PostField {
    Id,
    Title,
    UserName,
    UserId,
}

/// The mapping table from the fields of a post to their names in transit,
/// which are written in camel case.
pub open spec fn wire_name_of(field: PostField) -> Seq<char> {
    match field {
        PostField::Id => "id"@,
        PostField::Title => "title"@,
        PostField::UserName => "userName"@,
        PostField::UserId => "userId"@,
    }
}

/// The name under which `field` travels.
pub fn wire_name(field: PostField) -> (name: &'static str)
    ensures
        name@ == wire_name_of(field),
{
    match field {
        PostField::Id => "id",
        PostField::Title => "title",
        PostField::UserName => "userName",
        PostField::UserId => "userId",
    }
}

/// The string that `tree` holds for `field`, where it is an object that has a
/// string under the field's wire name.
pub open spec fn field_text(tree: Json, field: PostField) -> Option<Seq<char>> {
    match tree.field(wire_name_of(field)) {
        Some(found) => found.text(),
        None => None,
    }
}

/// The post that `tree` describes: an object that holds a string for each of
/// the four fields. Other members are ignored.
pub open spec fn post_of(tree: Json) -> Option<PostView> {
    if field_text(tree, PostField::Id) is Some && field_text(tree, PostField::Title) is Some
        && field_text(tree, PostField::UserName) is Some && field_text(tree, PostField::UserId)
        is Some {
        Some(
            PostView {
                id: field_text(tree, PostField::Id).unwrap(),
                title: field_text(tree, PostField::Title).unwrap(),
                user_name: field_text(tree, PostField::UserName).unwrap(),
                user_id: field_text(tree, PostField::UserId).unwrap(),
            },
        )
    } else {
        None
    }
}

/// The posts that `tree` lists: an array whose every element describes a post.
/// The order of the array is kept.
pub open spec fn posts_of(tree: Json) -> Option<Seq<PostView>> {
    match tree {
        Json::Array(elements) => if forall|i: int|
            0 <= i < elements.len() ==> post_of(#[trigger] elements[i]) is Some {
            Some(elements.map_values(|element: Json| post_of(element).unwrap()))
        } else {
            None
        },
        _ => None,
    }
}

/// The two popularity lists that `tree` holds: an object with a list of posts
/// under each of the two list names.
pub open spec fn post_list_of(tree: Json) -> Option<PostListView> {
    match (tree.field(RECENT_KEY@), tree.field(PERMANENT_KEY@)) {
        (Some(recent), Some(permanent)) => match (posts_of(recent), posts_of(permanent)) {
            (Some(recent), Some(permanent)) => Some(PostListView { recent, permanent }),
            _ => None,
        },
        _ => None,
    }
}

/// The part of a document that holds the popularity lists: the member
/// `popular` of the member `body`.
pub open spec fn popular_of(document: Json) -> Option<Json> {
    match document.field(BODY_KEY@) {
        Some(body) => body.field(POPULAR_KEY@),
        None => None,
    }
}

/// The popularity lists of a whole document.
pub open spec fn listing_of(document: Json) -> Option<PostListView> {
    match popular_of(document) {
        Some(popular) => post_list_of(popular),
        None => None,
    }
}

/// The service flags the document as an error: its member `error` is the
/// boolean `true`.
pub open spec fn error_flagged(document: Json) -> bool {
    document.field(ERROR_KEY@) == Some(Json::Bool(true))
}

/// Tells whether the service flagged its answer as an error.
pub fn reports_error(document: &serde_json::Value) -> (flagged: bool)
    ensures
        flagged == error_flagged(json_of(*document)),
{
    match member(document, ERROR_KEY) {
        Some(flag) => match flag_of(flag) {
            Some(set) => set,
            None => false,
        },
        None => false,
    }
}

/// Reads the string that `value` holds for `field`.
fn read_field(value: &serde_json::Value, field: PostField) -> (r: Option<String>)
    ensures
        match r {
            Some(text) => field_text(json_of(*value), field) == Some(text@),
            None => field_text(json_of(*value), field) is None,
        },
{
    match member(value, wire_name(field)) {
        Some(found) => match text_of(found) {
            Some(text) => Some(String::from_str(text)),
            None => None,
        },
        None => None,
    }
}

/// Reads one post. Gives nothing where a field is missing or is no string.
pub fn read_post(value: &serde_json::Value) -> (r: Option<Post>)
    ensures
        match r {
            Some(post) => post_of(json_of(*value)) == Some(post@),
            None => post_of(json_of(*value)) is None,
        },
{
    let id = match read_field(value, PostField::Id) {
        Some(text) => text,
        None => { return None; },
    };
    let title = match read_field(value, PostField::Title) {
        Some(text) => text,
        None => { return None; },
    };
    let user_name = match read_field(value, PostField::UserName) {
        Some(text) => text,
        None => { return None; },
    };
    let user_id = match read_field(value, PostField::UserId) {
        Some(text) => text,
        None => { return None; },
    };
    Some(Post { id, title, user_name, user_id })
}

/// Reads a list of posts, keeping its order. Gives nothing where the value is
/// no array or one of its elements is no post.
pub fn read_posts(value: &serde_json::Value) -> (r: Option<Vec<Post>>)
    ensures
        match r {
            Some(posts) => posts_of(json_of(*value)) == Some(post_views(posts@)),
            None => posts_of(json_of(*value)) is None,
        },
{
    let elements = match items_of(value) {
        Some(elements) => elements,
        None => { return None; },
    };
    let ghost trees = trees_of(elements@);
    let mut posts: Vec<Post> = Vec::new();
    let mut done: usize = 0;
    while done < elements.len()
        invariant
            done <= elements.len(),
            trees == trees_of(elements@),
            json_of(*value) == Json::Array(trees),
            posts.len() == done,
            forall|i: int| 0 <= i < done ==> post_of(#[trigger] trees[i]) == Some(posts@[i]@),
        decreases elements.len() - done,
    {
        match read_post(&elements[done]) {
            Some(post) => {
                posts.push(post);
            },
            None => {
                assert(post_of(trees[done as int]) is None);
                return None;
            },
        }
        done += 1;
    }
    assert(post_views(posts@) =~= trees.map_values(|element: Json| post_of(element).unwrap()));
    Some(posts)
}

/// Reads the two popularity lists. Gives nothing where either list is missing
/// or is no list of posts.
pub fn read_post_list(value: &serde_json::Value) -> (r: Option<PostList>)
    ensures
        match r {
            Some(list) => post_list_of(json_of(*value)) == Some(list@),
            None => post_list_of(json_of(*value)) is None,
        },
{
    let recent_value = match member(value, RECENT_KEY) {
        Some(found) => found,
        None => { return None; },
    };
    let permanent_value = match member(value, PERMANENT_KEY) {
        Some(found) => found,
        None => { return None; },
    };
    let recent = match read_posts(recent_value) {
        Some(posts) => posts,
        None => { return None; },
    };
    let permanent = match read_posts(permanent_value) {
        Some(posts) => posts,
        None => { return None; },
    };
    Some(PostList { recent, permanent })
}

/// Reads the popularity lists of a whole document. Gives nothing where the
/// document does not have the expected shape.
pub fn read_listing(document: &serde_json::Value) -> (r: Option<PostList>)
    ensures
        match r {
            Some(list) => listing_of(json_of(*document)) == Some(list@),
            None => listing_of(json_of(*document)) is None,
        },
{
    let body = match member(document, BODY_KEY) {
        Some(found) => found,
        None => { return None; },
    };
    match member(body, POPULAR_KEY) {
        Some(popular) => read_post_list(popular),
        None => None,
    }
}

} // verus!
