use pixiv_popular::payload::{
    read_listing, read_post, read_post_list, read_posts, reports_error, wire_name, PostField,
};
use pixiv_popular::post::Post;
use serde_json::Value;

fn json(text: &str) -> Value {
    serde_json::from_str(text).unwrap()
}

fn post(id: &str, title: &str, user_name: &str, user_id: &str) -> Post {
    Post {
        id: id.to_string(),
        title: title.to_string(),
        user_name: user_name.to_string(),
        user_id: user_id.to_string(),
    }
}

#[test]
fn wire_names_are_camel_case() {
    assert_eq!(wire_name(PostField::Id), "id");
    assert_eq!(wire_name(PostField::Title), "title");
    assert_eq!(wire_name(PostField::UserName), "userName");
    assert_eq!(wire_name(PostField::UserId), "userId");
}

#[test]
fn read_post_takes_the_four_fields() {
    let value = json(r#"{"id":"1","title":"Sunset","userName":"alice","userId":"77"}"#);
    assert_eq!(read_post(&value), Some(post("1", "Sunset", "alice", "77")));
}

#[test]
fn read_post_ignores_other_members() {
    let value = json(
        r#"{"id":"1","title":"Sunset","userName":"alice","userId":"77","tags":["a"],"width":800}"#,
    );
    assert_eq!(read_post(&value), Some(post("1", "Sunset", "alice", "77")));
}

#[test]
fn read_post_needs_every_field() {
    assert_eq!(read_post(&json(r#"{"title":"t","userName":"n","userId":"u"}"#)), None);
    assert_eq!(read_post(&json(r#"{"id":"1","userName":"n","userId":"u"}"#)), None);
    assert_eq!(read_post(&json(r#"{"id":"1","title":"t","userId":"u"}"#)), None);
    assert_eq!(read_post(&json(r#"{"id":"1","title":"t","userName":"n"}"#)), None);
    assert_eq!(read_post(&json("{}")), None);
}

#[test]
fn read_post_needs_strings() {
    assert_eq!(read_post(&json(r#"{"id":1,"title":"t","userName":"n","userId":"u"}"#)), None);
    assert_eq!(read_post(&json(r#"{"id":"1","title":null,"userName":"n","userId":"u"}"#)), None);
    assert_eq!(read_post(&json(r#"{"id":"1","title":"t","userName":["n"],"userId":"u"}"#)), None);
    assert_eq!(read_post(&json(r#"{"id":"1","title":"t","userName":"n","userId":true}"#)), None);
}

#[test]
fn read_post_does_not_take_internal_names() {
    let value = json(r#"{"id":"1","title":"t","user_name":"n","user_id":"u"}"#);
    assert_eq!(read_post(&value), None);
}

#[test]
fn read_post_needs_an_object() {
    assert_eq!(read_post(&json(r#"["1","t","n","u"]"#)), None);
    assert_eq!(read_post(&json("null")), None);
    assert_eq!(read_post(&json(r#""id""#)), None);
}

#[test]
fn read_posts_keeps_the_order() {
    let value = json(
        r#"[{"id":"3","title":"c","userName":"u3","userId":"30"},
            {"id":"1","title":"a","userName":"u1","userId":"10"},
            {"id":"2","title":"b","userName":"u2","userId":"20"}]"#,
    );
    assert_eq!(
        read_posts(&value),
        Some(vec![post("3", "c", "u3", "30"), post("1", "a", "u1", "10"), post("2", "b", "u2", "20")])
    );
}

#[test]
fn read_posts_of_empty_array() {
    assert_eq!(read_posts(&json("[]")), Some(Vec::new()));
}

#[test]
fn read_posts_needs_an_array() {
    assert_eq!(read_posts(&json("{}")), None);
    assert_eq!(read_posts(&json("null")), None);
    assert_eq!(read_posts(&json(r#""[]""#)), None);
}

#[test]
fn read_posts_fails_on_one_bad_element() {
    let value = json(
        r#"[{"id":"3","title":"c","userName":"u3","userId":"30"},
            {"id":"1","title":"a","userName":"u1"}]"#,
    );
    assert_eq!(read_posts(&value), None);
    assert_eq!(read_posts(&json(r#"[{"id":"3","title":"c","userName":"u3","userId":"30"}, 5]"#)), None);
}

#[test]
fn read_post_list_takes_both_lists() {
    let value = json(
        r#"{"recent":[{"id":"1","title":"a","userName":"u1","userId":"10"}],
            "permanent":[{"id":"2","title":"b","userName":"u2","userId":"20"},
                         {"id":"3","title":"c","userName":"u3","userId":"30"}]}"#,
    );
    let list = read_post_list(&value).unwrap();
    assert_eq!(list.recent, vec![post("1", "a", "u1", "10")]);
    assert_eq!(list.permanent, vec![post("2", "b", "u2", "20"), post("3", "c", "u3", "30")]);
}

#[test]
fn read_post_list_needs_both_lists() {
    assert_eq!(read_post_list(&json(r#"{"recent":[]}"#)), None);
    assert_eq!(read_post_list(&json(r#"{"permanent":[]}"#)), None);
    assert_eq!(read_post_list(&json(r#"{"recent":[],"permanent":null}"#)), None);
    assert_eq!(read_post_list(&json(r#"{"recent":{},"permanent":[]}"#)), None);
    assert_eq!(read_post_list(&json("null")), None);
    let empty = read_post_list(&json(r#"{"recent":[],"permanent":[]}"#)).unwrap();
    assert!(empty.recent.is_empty() && empty.permanent.is_empty());
}

#[test]
fn read_listing_walks_body_and_popular() {
    let value = json(
        r#"{"error":false,"body":{"popular":{
            "recent":[{"id":"1","title":"a","userName":"u1","userId":"10"}],
            "permanent":[]},"other":1}}"#,
    );
    let list = read_listing(&value).unwrap();
    assert_eq!(list.recent, vec![post("1", "a", "u1", "10")]);
    assert!(list.permanent.is_empty());
}

#[test]
fn read_listing_needs_the_expected_shape() {
    assert_eq!(read_listing(&json(r#"{"error":false}"#)), None);
    assert_eq!(read_listing(&json(r#"{"body":{}}"#)), None);
    assert_eq!(read_listing(&json(r#"{"body":{"popular":null}}"#)), None);
    assert_eq!(read_listing(&json(r#"{"body":{"popular":{"permanent":[]}}}"#)), None);
    assert_eq!(read_listing(&json(r#"{"popular":{"recent":[],"permanent":[]}}"#)), None);
    assert_eq!(read_listing(&json(r#"[1,2,3]"#)), None);
}

#[test]
fn reports_error_only_for_boolean_true() {
    assert!(reports_error(&json(r#"{"error":true}"#)));
    assert!(reports_error(&json(r#"{"error":true,"message":"bad word","body":[]}"#)));
    assert!(!reports_error(&json(r#"{"error":false}"#)));
    assert!(!reports_error(&json(r#"{"error":"true"}"#)));
    assert!(!reports_error(&json(r#"{"error":1}"#)));
    assert!(!reports_error(&json(r#"{"error":null}"#)));
    assert!(!reports_error(&json(r#"{"body":{"error":true}}"#)));
    assert!(!reports_error(&json("{}")));
    assert!(!reports_error(&json("[true]")));
    assert!(!reports_error(&json("true")));
}
