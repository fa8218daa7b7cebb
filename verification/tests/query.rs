use hello_api::{MyQueryParams, QueryRejection};

fn pairs(items: &[(&str, &str)]) -> Vec<(String, String)> {
    items.iter().map(|(key, value)| (key.to_string(), value.to_string())).collect()
}

fn named(name: &str) -> Result<MyQueryParams, QueryRejection> {
    Ok(MyQueryParams { name: name.to_string() })
}

#[test]
fn from_pairs_reads_the_name() {
    assert_eq!(MyQueryParams::from_pairs(&pairs(&[("name", "Ada")])), named("Ada"));
    assert_eq!(MyQueryParams::from_pairs(&pairs(&[("name", "")])), named(""));
    assert_eq!(
        MyQueryParams::from_pairs(&pairs(&[("a", "1"), ("name", "Ada Lovelace"), ("b", "2")])),
        named("Ada Lovelace")
    );
    assert_eq!(MyQueryParams::from_pairs(&pairs(&[("x", "name"), ("name", "x")])), named("x"));
}

#[test]
fn from_pairs_needs_the_name() {
    assert_eq!(MyQueryParams::from_pairs(&pairs(&[])), Err(QueryRejection::MissingName));
    assert_eq!(
        MyQueryParams::from_pairs(&pairs(&[("Name", "Ada"), ("", "Ada"), ("name ", "Ada")])),
        Err(QueryRejection::MissingName)
    );
}

#[test]
fn from_pairs_refuses_a_second_name() {
    assert_eq!(
        MyQueryParams::from_pairs(&pairs(&[("name", "a"), ("name", "b")])),
        Err(QueryRejection::DuplicateName)
    );
    assert_eq!(
        MyQueryParams::from_pairs(&pairs(&[("name", "a"), ("x", "")  , ("name", "a"), ("name", "c")])),
        Err(QueryRejection::DuplicateName)
    );
}

#[test]
fn from_query_decodes_the_text() {
    assert_eq!(MyQueryParams::from_query(Some("name=Ada")), named("Ada"));
    assert_eq!(MyQueryParams::from_query(Some("name=Ada%21")), named("Ada!"));
    assert_eq!(MyQueryParams::from_query(Some("name=a+b")), named("a b"));
    assert_eq!(MyQueryParams::from_query(Some("name=a=b")), named("a=b"));
    assert_eq!(MyQueryParams::from_query(Some("name=%")), named("%"));
    assert_eq!(MyQueryParams::from_query(Some("name=%FF")), named("\u{fffd}"));
}

#[test]
fn from_query_without_a_query() {
    assert_eq!(MyQueryParams::from_query(None), Err(QueryRejection::MissingName));
    assert_eq!(MyQueryParams::from_query(Some("")), Err(QueryRejection::MissingName));
}

#[test]
fn from_query_with_two_names() {
    assert_eq!(MyQueryParams::from_query(Some("name=a&name=b")), Err(QueryRejection::DuplicateName));
}

#[test]
fn fields_are_the_one_name() {
    assert_eq!(MyQueryParams::fields(), vec!["name"]);
}

#[test]
fn rejection_messages() {
    assert_eq!(
        QueryRejection::MissingName.message(),
        "Failed to deserialize query string: missing field `name`"
    );
    assert_eq!(
        QueryRejection::DuplicateName.message(),
        "Failed to deserialize query string: duplicate field `name`"
    );
}
