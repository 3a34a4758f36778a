use ar_proxy::json::{member, parse, JsonValue};

#[test]
fn document_is_parsed_into_a_tree() {
    let document = parse(b"{\"b\": [1, 2.5, -3, true, null, \"x\"], \"a\": {\"c\": \"d\"}}").unwrap();
    let members = document.members().unwrap();
    assert_eq!(members.len(), 2);
    match member(members, "b").unwrap() {
        JsonValue::Array(items) => {
            assert_eq!(items.len(), 6);
            assert!(matches!(&items[0], JsonValue::Number(n) if n == "1"));
            assert!(matches!(&items[1], JsonValue::Number(n) if n == "2.5"));
            assert!(matches!(&items[2], JsonValue::Number(n) if n == "-3"));
            assert!(matches!(&items[3], JsonValue::Bool(true)));
            assert!(matches!(&items[4], JsonValue::Null));
            assert_eq!(items[5].text().unwrap(), "x");
        }
        other => panic!("unexpected: {:?}", other),
    }
    let inner = member(members, "a").unwrap().members().unwrap();
    assert_eq!(member(inner, "c").unwrap().text().unwrap(), "d");
    assert!(member(inner, "d").is_none());
    assert!(member(members, "c").is_none());
    assert!(member(members, "A").is_none());
}

#[test]
fn values_that_are_no_object_have_no_members() {
    for text in ["1", "\"s\"", "[{}]", "null", "false"] {
        let value = parse(text.as_bytes()).unwrap();
        assert!(value.members().is_none());
    }
    assert!(parse(b"{}").unwrap().members().unwrap().is_empty());
    assert!(parse(b"{}").unwrap().text().is_none());
    assert!(parse(b"[]").unwrap().text().is_none());
    assert_eq!(parse(b"\"\"").unwrap().text().unwrap(), "");
    assert_eq!(parse(b"\"a\\nb\\u00e9\"").unwrap().text().unwrap(), "a\nbé");
}

#[test]
fn later_member_of_a_name_is_the_one_that_is_kept() {
    let document = parse(b"{\"a\": \"first\", \"a\": \"second\"}").unwrap();
    let members = document.members().unwrap();
    assert_eq!(members.len(), 1);
    assert_eq!(member(members, "a").unwrap().text().unwrap(), "second");
}

#[test]
fn text_that_is_not_json_is_refused_with_a_message() {
    for text in ["", "{", "{\"a\": }", "nul", "[1,]", "{} {}", "\u{feff}{}"] {
        match parse(text.as_bytes()) {
            Err(message) => assert!(!message.is_empty()),
            Ok(value) => panic!("unexpected: {:?}", value),
        }
    }
    assert!(parse(&[0xff, 0xfe]).is_err());
    assert_eq!(
        parse(b"{\"a\": ").unwrap_err(),
        "EOF while parsing a value at line 1 column 6"
    );
}
