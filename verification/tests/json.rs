use spotify_client::http::{body_list, Body};
use spotify_client::json::{Fields, Json};

fn text(value: &str) -> Json {
    Json::Text(value.to_string())
}

#[test]
fn get_finds_a_member_of_an_object() {
    let object = Json::Object(vec![
        ("a".to_string(), Json::Integer(1)),
        ("b".to_string(), text("two")),
        ("c".to_string(), Json::Null),
    ]);
    assert_eq!(object.get("a"), Some(&Json::Integer(1)));
    assert_eq!(object.get("b"), Some(&text("two")));
    assert_eq!(object.get("c"), Some(&Json::Null));
    assert_eq!(object.get("d"), None);
    assert_eq!(object.get(""), None);
    assert_eq!(object.get("A"), None);
}

#[test]
fn get_takes_the_first_of_equal_keys() {
    let object = Json::Object(vec![
        ("k".to_string(), Json::Integer(1)),
        ("k".to_string(), Json::Integer(2)),
    ]);
    assert_eq!(object.get("k"), Some(&Json::Integer(1)));
}

#[test]
fn get_finds_nothing_in_what_is_no_object() {
    assert_eq!(Json::Null.get("a"), None);
    assert_eq!(Json::Bool(true).get("a"), None);
    assert_eq!(Json::Integer(3).get("a"), None);
    assert_eq!(Json::Real("1.5".to_string()).get("a"), None);
    assert_eq!(text("a").get("a"), None);
    assert_eq!(Json::Array(vec![text("a")]).get("a"), None);
    assert_eq!(Json::Object(vec![]).get("a"), None);
}

#[test]
fn text_and_lists() {
    assert_eq!(Json::text("x"), text("x"));
    assert_eq!(Json::text_list(&["a", "b"]), Json::Array(vec![text("a"), text("b")]));
    let none: [&str; 0] = [];
    assert_eq!(Json::text_list(&none), Json::Array(vec![]));
    assert_eq!(
        Json::owned_text_list(&vec!["a".to_string(), "b".to_string()]),
        Json::Array(vec![text("a"), text("b")])
    );
    assert_eq!(
        Json::keyed_list("uri", &vec!["u1".to_string(), "u2".to_string()]),
        Json::Array(vec![
            Json::Object(vec![("uri".to_string(), text("u1"))]),
            Json::Object(vec![("uri".to_string(), text("u2"))]),
        ])
    );
    assert_eq!(Json::single("k", Json::Bool(false)), Json::Object(vec![("k".to_string(), Json::Bool(false))]));
}

#[test]
fn fields_keep_their_order_and_skip_what_is_absent() {
    let mut fields = Fields::new();
    fields.text("name", "n");
    fields.optional_text("description", &None);
    fields.number("position", 3);
    fields.optional_number("range_length", None);
    fields.flag("public", false);
    fields.optional_flag("collaborative", Some(true));
    fields.list("uris", &vec!["a".to_string()]);
    fields.optional_list("more", &None);
    fields.optional_list("others", &Some(vec![]));
    fields.optional_text("snapshot_id", &Some("s".to_string()));
    fields.optional_number("limit", Some(0));
    fields.optional_flag("play", None);
    fields.optional_value("offset", None);
    fields.optional_value("nested", Some(Json::Null));
    fields.keyed_list("tracks", "uri", &vec!["t".to_string()]);
    fields.put("last", Json::Real("1.5".to_string()));
    assert_eq!(
        fields.into_object(),
        Json::Object(vec![
            ("name".to_string(), text("n")),
            ("position".to_string(), Json::Integer(3)),
            ("public".to_string(), Json::Bool(false)),
            ("collaborative".to_string(), Json::Bool(true)),
            ("uris".to_string(), Json::Array(vec![text("a")])),
            ("others".to_string(), Json::Array(vec![])),
            ("snapshot_id".to_string(), text("s")),
            ("limit".to_string(), Json::Integer(0)),
            ("nested".to_string(), Json::Null),
            ("tracks".to_string(), Json::Array(vec![Json::Object(vec![("uri".to_string(), text("t"))])])),
            ("last".to_string(), Json::Real("1.5".to_string())),
        ])
    );
    assert_eq!(Fields::new().into_object(), Json::Object(vec![]));
}

#[test]
fn body_list_is_an_array_under_one_key() {
    assert_eq!(
        body_list("ids", &["a", "b"]),
        Body::Json(Json::Object(vec![("ids".to_string(), Json::Array(vec![text("a"), text("b")]))]))
    );
    let none: [&str; 0] = [];
    assert_eq!(
        body_list("ids", &none),
        Body::Json(Json::Object(vec![("ids".to_string(), Json::Array(vec![]))]))
    );
}

#[test]
fn take_gives_the_first_member_of_a_name() {
    let object = || {
        Json::Object(vec![
            ("a".to_string(), Json::Integer(1)),
            ("b".to_string(), text("two")),
            ("a".to_string(), Json::Integer(3)),
        ])
    };
    assert_eq!(object().take("a"), Some(Json::Integer(1)));
    assert_eq!(object().take("b"), Some(text("two")));
    assert_eq!(object().take("c"), None);
    assert_eq!(Json::Object(vec![]).take("a"), None);
    assert_eq!(Json::Array(vec![text("a")]).take("a"), None);
    assert_eq!(Json::Null.take("a"), None);
    assert_eq!(text("a").take("a"), None);
}
