use cjvalidate::extension::{declared_extensions, declared_in, Declaration, Declared};
use cjvalidate::json::{parse_json, Json};

fn declaration(name: &str, url: Option<&str>) -> Declaration {
    Declaration {
        name: name.to_string(),
        url: url.map(|u| u.to_string()),
    }
}

fn object(members: Vec<(&str, Json)>) -> Json {
    Json::Object(
        members
            .into_iter()
            .map(|(name, value)| (name.to_string(), value))
            .collect(),
    )
}

#[test]
fn dataset_without_extensions_declares_none() {
    let declared = declared_extensions(
        "{\"type\":\"CityJSON\",\"version\":\"1.1\",\"CityObjects\":{},\"vertices\":[]}",
    );
    assert_eq!(declared, Declared::Absent);
    assert_eq!(declared.notice(), Some("\t- NONE"));
    assert_eq!(declared.declarations(), Some(Vec::new()));
}

#[test]
fn text_that_is_not_json_is_unreadable() {
    let declared = declared_extensions("{\"type\": ");
    assert_eq!(declared, Declared::Unreadable);
    assert_eq!(declared.notice(), Some("Error from the string"));
    assert_eq!(declared.declarations(), Some(Vec::new()));
    assert_eq!(declared_extensions(""), Declared::Unreadable);
}

#[test]
fn root_that_is_no_object_cannot_be_followed() {
    for text in ["[]", "3", "\"extensions\"", "null", "true"] {
        let declared = declared_extensions(text);
        assert_eq!(declared, Declared::RootNotObject);
        assert_eq!(declared.notice(), None);
        assert_eq!(declared.declarations(), None);
    }
}

#[test]
fn extensions_that_is_no_object_cannot_be_followed() {
    for text in [
        "{\"extensions\": []}",
        "{\"extensions\": \"https://example.org\"}",
        "{\"extensions\": null}",
    ] {
        let declared = declared_extensions(text);
        assert_eq!(declared, Declared::NotAnObject);
        assert_eq!(declared.notice(), None);
        assert_eq!(declared.declarations(), None);
    }
}

#[test]
fn empty_extensions_lists_nothing() {
    let declared = declared_extensions("{\"extensions\": {}}");
    assert_eq!(declared, Declared::Listed(Vec::new()));
    assert_eq!(declared.notice(), None);
    assert_eq!(declared.declarations(), Some(Vec::new()));
}

#[test]
fn one_extension_is_listed_with_its_url() {
    let declared = declared_extensions(
        "{\"type\":\"CityJSON\",\"extensions\":{\"Noise\":{\"url\":\"https://example.org/noise.ext.json\",\"version\":\"1.0\"}}}",
    );
    assert_eq!(
        declared,
        Declared::Listed(vec![declaration(
            "Noise",
            Some("https://example.org/noise.ext.json")
        )])
    );
}

#[test]
fn extensions_come_in_the_order_of_the_parsed_object() {
    let declared = declared_extensions(
        "{\"extensions\":{\"Zoning\":{\"url\":\"https://z.example/z.json\"},\"Noise\":{\"url\":\"https://n.example/n.json\"},\"Air\":{\"url\":\"https://a.example/a.json\"}}}",
    );
    assert_eq!(
        declared.declarations(),
        Some(vec![
            declaration("Air", Some("https://a.example/a.json")),
            declaration("Noise", Some("https://n.example/n.json")),
            declaration("Zoning", Some("https://z.example/z.json")),
        ])
    );
}

#[test]
fn entry_without_a_string_url_is_listed_without_one() {
    let declared = declared_extensions(
        "{\"extensions\":{\"A\":{},\"B\":{\"url\":7},\"C\":\"https://c.example\",\"D\":{\"url\":null},\"E\":{\"url\":\"\"}}}",
    );
    assert_eq!(
        declared,
        Declared::Listed(vec![
            declaration("A", None),
            declaration("B", None),
            declaration("C", None),
            declaration("D", None),
            declaration("E", Some("")),
        ])
    );
}

#[test]
fn last_of_two_equal_keys_is_the_one_read() {
    let declared = declared_extensions(
        "{\"extensions\":{\"A\":{\"url\":\"https://one.example\"}},\"extensions\":{\"B\":{\"url\":\"https://two.example\"}}}",
    );
    assert_eq!(
        declared,
        Declared::Listed(vec![declaration("B", Some("https://two.example"))])
    );
}

#[test]
fn escapes_in_names_and_urls_are_resolved() {
    let declared =
        declared_extensions("{\"extensions\":{\"N\\u00f8ise\":{\"url\":\"https:\\/\\/e.example\\/a\"}}}");
    assert_eq!(
        declared,
        Declared::Listed(vec![declaration("Nøise", Some("https://e.example/a"))])
    );
}

#[test]
fn declarations_are_read_off_a_value_in_member_order() {
    let root = object(vec![
        ("type", Json::Text("CityJSON".to_string())),
        (
            "extensions",
            object(vec![
                (
                    "Second",
                    object(vec![("url", Json::Text("https://b.example".to_string()))]),
                ),
                (
                    "First",
                    object(vec![
                        ("version", Json::Number("2".to_string())),
                        ("url", Json::Text("https://a.example".to_string())),
                    ]),
                ),
                ("Third", Json::List(vec![Json::Null, Json::Bool(true)])),
            ]),
        ),
    ]);
    assert_eq!(
        declared_in(&root),
        Declared::Listed(vec![
            declaration("Second", Some("https://b.example")),
            declaration("First", Some("https://a.example")),
            declaration("Third", None),
        ])
    );
    assert_eq!(declared_in(&Json::Null), Declared::RootNotObject);
    assert_eq!(declared_in(&object(vec![])), Declared::Absent);
    assert_eq!(
        declared_in(&object(vec![("extensions", Json::Bool(false))])),
        Declared::NotAnObject
    );
}

#[test]
fn members_are_found_by_name() {
    let value = object(vec![
        ("a", Json::Number("1".to_string())),
        ("b", Json::Text("two".to_string())),
        ("a", Json::Null),
    ]);
    assert_eq!(value.get("a"), Some(&Json::Number("1".to_string())));
    assert_eq!(value.get("b"), Some(&Json::Text("two".to_string())));
    assert_eq!(value.get("c"), None);
    assert_eq!(value.get(""), None);
    assert_eq!(Json::Text("a".to_string()).get("a"), None);
    assert_eq!(
        value.get("b").unwrap().as_text(),
        Some(&"two".to_string())
    );
    assert_eq!(value.get("a").unwrap().as_text(), None);
}

#[test]
fn text_is_read_into_a_value_node_by_node() {
    let value = parse_json(" {\"b\": [1, -3, 2.5, \"x\", null, true, {}], \"a\": {\"c\": false}} ");
    assert_eq!(
        value,
        Ok(object(vec![
            ("a", object(vec![("c", Json::Bool(false))])),
            (
                "b",
                Json::List(vec![
                    Json::Number("1".to_string()),
                    Json::Number("-3".to_string()),
                    Json::Number("2.5".to_string()),
                    Json::Text("x".to_string()),
                    Json::Null,
                    Json::Bool(true),
                    object(vec![]),
                ])
            ),
        ]))
    );
    assert_eq!(parse_json("\"only a string\""), Ok(Json::Text("only a string".to_string())));
}

#[test]
fn text_that_is_not_json_is_told_why() {
    assert_eq!(
        parse_json("{\"a\": }"),
        Err("expected value at line 1 column 7".to_string())
    );
    assert_eq!(
        parse_json("[1, 2] 3"),
        Err("trailing characters at line 1 column 8".to_string())
    );
}
