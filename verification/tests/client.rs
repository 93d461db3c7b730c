use phant::{Error, ErrorKind, Method, Phant, Request, Row, StreamSpec};
use std::cell::Cell;

fn basic_phant() -> Phant {
    let mut p = Phant::new("https://data.com", "pub", "priv", None);
    p.add("color", "red");
    p
}

fn plain_phant() -> Phant {
    let mut p = Phant::new("data.com", "pub", "priv", None);
    p.add("color", "red");
    p
}

fn body(text: &str) -> Result<Vec<u8>, Error> {
    Ok(text.as_bytes().to_vec())
}

fn header<'a>(request: &'a Request, name: &str) -> Option<&'a str> {
    request.headers.iter().find(|(n, _)| n == name).map(|(_, v)| v.as_str())
}

#[test]
fn phant_test_get_url() {
    let expected = "https://data.com/input/pub?private_key=priv&color=red".to_string();
    let p = basic_phant();
    assert_eq!(p.row_data().len(), 1);
    assert_eq!(p.get_url(), expected);
    assert_eq!(p.row_data().len(), 1);
}

#[test]
fn phant_test_row_data() {
    let expected_key = "color".to_string();
    let expected_value = "red".to_string();
    let p = basic_phant();
    let mut row_data = p.row_data();
    assert_eq!(row_data.len(), 1);
    assert_eq!(row_data[&expected_key], expected_value);

    // The row that comes back is a copy: changing it leaves the client's row alone.
    row_data.insert("size".to_string(), "large".to_string());
    assert_eq!(p.row_data().len(), 1);
}

#[test]
fn phant_test_overwrite_column() {
    let key = "color".to_string();
    let first_value = "red".to_string();
    let second_value = "green".to_string();
    let mut p = basic_phant();
    assert_eq!(p.row_data()[&key], first_value);

    p.add(&key, &second_value);
    assert_eq!(p.row_data().len(), 1);
    assert_eq!(p.row_data()[&key], second_value);
}

#[test]
fn phant_test_clear_local() {
    let mut p = basic_phant();
    assert!(p.row_data().len() > 0);
    p.clear_local();
    assert_eq!(p.row_data().len(), 0);
}

#[test]
fn mod_test_get_url() {
    let expected = "http://data.com/input/pub?private_key=priv&color=red".to_string();
    let mut p = Phant::new("http://data.com", "pub", "priv", None);
    p.add("color", "red");
    assert_eq!(p.row_data().len(), 1);
    assert_eq!(p.get_url(), expected);
    assert_eq!(p.row_data().len(), 1);
}

#[test]
fn mod_test_row_data() {
    let expected_key = "color".to_string();
    let expected_value = "red".to_string();
    let p = plain_phant();
    let mut row_data = p.row_data();
    assert_eq!(row_data.len(), 1);
    assert_eq!(row_data[&expected_key], expected_value);

    row_data.insert("size".to_string(), "large".to_string());
    assert_eq!(p.row_data().len(), 1);
}

#[test]
fn mod_test_overwrite_column() {
    let key = "color".to_string();
    let first_value = "red".to_string();
    let second_value = "green".to_string();
    let mut p = plain_phant();
    assert_eq!(p.row_data()[&key], first_value);

    p.add(&key, &second_value);
    assert_eq!(p.row_data().len(), 1);
    assert_eq!(p.row_data()[&key], second_value);
}

#[test]
fn mod_test_clear_local() {
    let mut p = plain_phant();
    assert!(p.row_data().len() > 0);
    p.clear_local();
    assert_eq!(p.row_data().len(), 0);
}

#[test]
fn distinct_keys_are_counted() {
    let mut p = Phant::new("https://data.com", "pub", "priv", None);
    assert_eq!(p.row_data().len(), 0);
    p.add("a", "1");
    p.add("b", "2");
    p.add("c", "3");
    p.add("d", "4");
    assert_eq!(p.row_data().len(), 4);
    let row = p.row_data();
    assert_eq!(row[&"a".to_string()], "1");
    assert_eq!(row[&"d".to_string()], "4");
}

#[test]
fn overwrite_keeps_the_place_of_the_column() {
    let mut p = Phant::new("https://data.com", "pub", "priv", None);
    p.add("a", "1");
    p.add("b", "2");
    p.add("a", "3");
    assert_eq!(p.row_data().len(), 2);
    assert_eq!(p.data_query_string(), "a=3&b=2");
}

#[test]
fn clear_local_on_empty_row_changes_nothing() {
    let mut p = Phant::new("https://data.com", "pub", "priv", Some("del"));
    let before = p.get_url();
    p.clear_local();
    assert_eq!(p.row_data().len(), 0);
    assert_eq!(p.get_url(), before);
    assert_eq!(p.delete_key(), Some("del".to_string()));
}

#[test]
fn get_url_is_repeatable() {
    let mut p = basic_phant();
    p.add("size", "large");
    let first = p.get_url();
    let second = p.get_url();
    assert_eq!(first, second);
    assert_eq!(first, "https://data.com/input/pub?private_key=priv&color=red&size=large");
    assert_eq!(p.row_data().len(), 2);
}

#[test]
fn get_url_of_empty_row() {
    let p = Phant::new("https://data.com", "pub", "priv", None);
    assert_eq!(p.get_url(), "https://data.com/input/pub?private_key=priv&");
}

#[test]
fn add_takes_any_displayed_value() {
    let mut p = Phant::new("https://data.com", "pub", "priv", None);
    p.add("temp", 42);
    p.add("ok", true);
    assert_eq!(p.data_query_string(), "temp=42&ok=true");
    p.add_text("temp", "43".to_string());
    assert_eq!(p.row_data()[&"temp".to_string()], "43");
}

#[test]
fn query_string_is_percent_encoded() {
    let mut p = Phant::new("https://data.com", "pub", "priv", None);
    p.add("a b", "x?y");
    assert_eq!(p.data_query_string(), "a%20b=x%3Fy");
    p.clear_local();
    p.add("note", "\"<#>`{}\"");
    assert_eq!(p.data_query_string(), "note=%22%3C%23%3E%60%7B%7D%22");
    p.clear_local();
    p.add("caf\u{e9}", "\u{20ac}\n");
    assert_eq!(p.data_query_string(), "caf%C3%A9=%E2%82%AC%0A");
    p.clear_local();
    p.add("k", "-_.~&=/:;@[]^|%+");
    assert_eq!(p.data_query_string(), "k=-_.~&=%2F%3A%3B%40%5B%5D%5E%7C%25%2B");
    p.clear_local();
    p.add("/", "x");
    assert_eq!(p.data_query_string(), "%2F=x");
    p.clear_local();
    p.add("azAZ09", "!$'()*,\\");
    assert_eq!(p.data_query_string(), "azAZ09=%21%24%27%28%29%2A%2C%5C");
}

#[test]
fn percent_encode_escapes_all_but_the_unreserved() {
    assert_eq!(phant::query::percent_encode(""), "");
    assert_eq!(phant::query::percent_encode("abcXYZ019-_.~=&"), "abcXYZ019-_.~=&");
    assert_eq!(phant::query::percent_encode(" /:@%+\u{0}\u{7f}"), "%20%2F%3A%40%25%2B%00%7F");
    assert_eq!(phant::query::percent_encode("\u{1F600}"), "%F0%9F%98%80");
    assert!(phant::query::is_unescaped(b'~'));
    assert!(!phant::query::is_unescaped(b'/'));
}

#[test]
fn free_query_string_of_a_row() {
    let mut row = Row::new();
    assert_eq!(phant::query::data_query_string(&row), "");
    row.insert("x".to_string(), "1 2".to_string());
    row.insert("y".to_string(), "3".to_string());
    assert_eq!(phant::query::data_query_string(&row), "x=1%202&y=3");
}

#[test]
fn join_puts_the_separator_between_neighbours() {
    let none: Vec<String> = Vec::new();
    assert_eq!(phant::query::join(&none, ","), "");
    assert_eq!(phant::query::join(&vec!["a".to_string()], ","), "a");
    assert_eq!(phant::query::join(&vec!["a".to_string(), "b".to_string(), "".to_string()], ", "), "a, b, ");
}

#[test]
fn row_lookups() {
    let mut row = Row::new();
    assert!(row.is_empty());
    assert_eq!(row.get("a"), None);
    assert!(!row.contains_key("a"));
    row.insert("a".to_string(), "1".to_string());
    row.insert("b".to_string(), "2".to_string());
    row.insert("a".to_string(), "9".to_string());
    assert!(!row.is_empty());
    assert_eq!(row.len(), 2);
    assert_eq!(row.get("a"), Some(&"9".to_string()));
    assert!(row.contains_key("b"));
    assert_eq!(row.entry(0), ("a", "9"));
    assert_eq!(row.entry(1), ("b", "2"));
    let copy = row.clone();
    row.clear();
    assert_eq!(row.len(), 0);
    assert_eq!(copy.len(), 2);
    assert_eq!(copy[&"b".to_string()], "2");
}

#[test]
fn accessors_return_the_keys() {
    let p = Phant::new("https://data.com", "pub", "priv", None);
    assert_eq!(p.public_key(), "pub");
    assert_eq!(p.private_key(), "priv");
    assert_eq!(p.delete_key(), None);
    let q = Phant::new("https://data.com", "pub", "priv", Some("del"));
    assert_eq!(q.delete_key(), Some("del".to_string()));
}

#[test]
fn delete_stream_without_key_sends_nothing() {
    let calls = Cell::new(0u32);
    let p = Phant::new("https://data.com", "pub", "priv", None);
    let outcome = p.delete_stream(|_request| {
        calls.set(calls.get() + 1);
        body("")
    });
    match outcome {
        Err(Error::Phant(message)) => assert_eq!(message, "Delete key not provided"),
        other => panic!("unexpected outcome: {:?}", other),
    }
    assert_eq!(calls.get(), 0);
}

#[test]
fn delete_stream_with_key_sends_one_request() {
    let calls = Cell::new(0u32);
    let p = Phant::new("https://data.com", "pub", "priv", Some("del"));
    let outcome = p.delete_stream(|request| {
        calls.set(calls.get() + 1);
        assert_eq!(request.method, Method::Delete);
        assert_eq!(request.url, "https://data.com/input/pub");
        assert_eq!(request.headers, vec![("Phant-Delete-Key".to_string(), "del".to_string())]);
        assert_eq!(request.body, None);
        body("gone")
    });
    assert!(matches!(outcome, Ok(())));
    assert_eq!(calls.get(), 1);
}

#[test]
fn delete_stream_hands_on_the_failure() {
    let p = Phant::new("https://data.com", "pub", "priv", Some("del"));
    let outcome = p.delete_stream(|_request| Err(Error::Hyper("connection refused".to_string())));
    match outcome {
        Err(Error::Hyper(message)) => assert_eq!(message, "connection refused"),
        other => panic!("unexpected outcome: {:?}", other),
    }
}

#[test]
fn push_clears_the_row_on_success() {
    let calls = Cell::new(0u32);
    let mut p = basic_phant();
    let outcome = p.push(|request| {
        calls.set(calls.get() + 1);
        assert_eq!(request.method, Method::Post);
        assert_eq!(request.url, "https://data.com/input/pub");
        assert_eq!(header(&request, "Phant-Private-Key"), Some("priv"));
        assert_eq!(header(&request, "Content-Type"), Some("application/x-www-form-urlencoded"));
        assert_eq!(request.headers.len(), 2);
        assert_eq!(request.body, Some("color=red".to_string()));
        body("1 success")
    });
    match outcome {
        Ok(body) => assert_eq!(body, "1 success"),
        other => panic!("unexpected outcome: {:?}", other),
    }
    assert_eq!(calls.get(), 1);
    assert_eq!(p.row_data().len(), 0);
}

#[test]
fn push_leaves_the_row_on_failure() {
    let mut p = basic_phant();
    let outcome = p.push(|_request| Err(Error::Io("broken pipe".to_string())));
    match outcome {
        Err(Error::Io(message)) => assert_eq!(message, "broken pipe"),
        other => panic!("unexpected outcome: {:?}", other),
    }
    assert_eq!(p.row_data().len(), 1);
    assert_eq!(p.row_data()[&"color".to_string()], "red");
}

#[test]
fn clear_server_leaves_the_row() {
    let mut p = basic_phant();
    let outcome = p.clear_server(|request| {
        assert_eq!(request.method, Method::Delete);
        assert_eq!(request.url, "https://data.com/input/pub");
        assert_eq!(request.headers, vec![("Phant-Private-Key".to_string(), "priv".to_string())]);
        assert_eq!(request.body, None);
        body("cleared")
    });
    match outcome {
        Ok(body) => assert_eq!(body, "cleared"),
        other => panic!("unexpected outcome: {:?}", other),
    }
    assert_eq!(p.row_data().len(), 1);
    let failed = p.clear_server(|_request| Err(Error::NativeTls("handshake".to_string())));
    assert!(matches!(failed, Err(Error::NativeTls(_))));
    assert_eq!(p.row_data().len(), 1);
}

fn sample_spec() -> StreamSpec {
    StreamSpec {
        title: "My Title".to_string(),
        description: "My description".to_string(),
        fields: vec!["a".to_string(), "b".to_string()],
        hidden: true,
        alias: None,
        tags: None,
    }
}

#[test]
fn serialize_writes_the_members() {
    match sample_spec().serialize() {
        Ok(text) => assert_eq!(
            text,
            "{\"description\":\"My description\",\"fields\":\"a,b\",\"hidden\":1,\"title\":\"My Title\"}"
        ),
        other => panic!("unexpected outcome: {:?}", other),
    }
    let full = StreamSpec {
        title: "t \"q\"".to_string(),
        description: "d".to_string(),
        fields: vec!["a".to_string()],
        hidden: false,
        alias: Some("al".to_string()),
        tags: Some(vec!["x".to_string(), "y".to_string()]),
    };
    match full.serialize() {
        Ok(text) => assert_eq!(
            text,
            "{\"alias\":\"al\",\"description\":\"d\",\"fields\":\"a\",\"hidden\":0,\"tags\":\"x,y\",\"title\":\"t \\\"q\\\"\"}"
        ),
        other => panic!("unexpected outcome: {:?}", other),
    }
    let no_tags = StreamSpec { tags: Some(Vec::new()), ..sample_spec() };
    match no_tags.serialize() {
        Ok(text) => assert!(!text.contains("tags")),
        other => panic!("unexpected outcome: {:?}", other),
    }
}

#[test]
fn create_stream_returns_the_new_client() {
    let calls = Cell::new(0u32);
    let outcome = Phant::create_stream("https://data.com", sample_spec(), |request| {
        calls.set(calls.get() + 1);
        assert_eq!(request.method, Method::Post);
        assert_eq!(request.url, "https://data.com/streams");
        assert_eq!(header(&request, "Content-Type"), Some("application/json"));
        assert_eq!(header(&request, "Accept"), Some("application/json"));
        assert_eq!(request.headers.len(), 2);
        assert_eq!(
            request.body,
            Some(
                "{\"description\":\"My description\",\"fields\":\"a,b\",\"hidden\":1,\"title\":\"My Title\"}"
                    .to_string()
            )
        );
        body("{\"success\":true,\"publicKey\":\"PUB\",\"privateKey\":\"PRIV\",\"deleteKey\":\"DEL\"}")
    });
    assert_eq!(calls.get(), 1);
    match outcome {
        Ok(client) => {
            assert_eq!(client.public_key(), "PUB");
            assert_eq!(client.private_key(), "PRIV");
            assert_eq!(client.delete_key(), Some("DEL".to_string()));
            assert_eq!(client.row_data().len(), 0);
            assert_eq!(client.get_url(), "https://data.com/input/PUB?private_key=PRIV&");
        }
        other => panic!("unexpected outcome: {:?}", other),
    }
}

#[test]
fn create_stream_reports_the_servers_message() {
    let outcome = Phant::create_stream("https://data.com", sample_spec(), |_request| {
        body("{\"success\":false,\"message\":\"stream exists\"}")
    });
    match outcome {
        Err(Error::Phant(message)) => assert_eq!(message, "stream exists"),
        other => panic!("unexpected outcome: {:?}", other),
    }
}

#[test]
fn create_stream_hands_on_the_failure() {
    let outcome =
        Phant::create_stream("https://data.com", sample_spec(), |_request| Err(Error::Uri("bad address".to_string())));
    match outcome {
        Err(Error::Uri(message)) => assert_eq!(message, "bad address"),
        other => panic!("unexpected outcome: {:?}", other),
    }
}

#[test]
fn create_stream_refuses_what_is_no_json() {
    let outcome = Phant::create_stream("https://data.com", sample_spec(), |_request| body("<html>"));
    assert!(matches!(outcome, Err(Error::Serde(_))));
}

#[test]
fn create_stream_refuses_an_unexpected_shape() {
    let replies = [
        "{\"success\":true,\"publicKey\":\"PUB\",\"privateKey\":\"PRIV\"}",
        "{\"success\":true,\"publicKey\":1,\"privateKey\":\"PRIV\",\"deleteKey\":\"DEL\"}",
        "{\"success\":false}",
        "{\"success\":\"yes\",\"message\":\"m\"}",
        "{\"message\":\"m\"}",
        "[true]",
        "null",
    ];
    for reply in replies {
        let outcome = Phant::from_reply("https://data.com", Ok(reply.to_string()));
        match outcome {
            Err(Error::Serde(message)) => assert_eq!(message, "unexpected response from the server"),
            other => panic!("unexpected outcome for {}: {:?}", reply, other),
        }
    }
}

#[test]
fn decode_response_reads_the_members() {
    let decoded = phant::json::decode_response(
        "{\"success\":true,\"publicKey\":\"a\",\"privateKey\":\"b\",\"deleteKey\":\"c\",\"extra\":[1,2]}",
    );
    match decoded {
        Ok(response) => {
            assert_eq!(response.success, Some(true));
            assert_eq!(response.public_key, Some("a".to_string()));
            assert_eq!(response.private_key, Some("b".to_string()));
            assert_eq!(response.delete_key, Some("c".to_string()));
            assert_eq!(response.message, None);
        }
        other => panic!("unexpected outcome: {:?}", other),
    }
    assert!(matches!(phant::json::decode_response("{"), Err(Error::Serde(_))));
}

#[test]
fn read_body_reads_utf8() {
    match phant::web::read_body(Ok(vec![0x63, 0x61, 0x66, 0xC3, 0xA9])) {
        Ok(text) => assert_eq!(text, "caf\u{e9}"),
        other => panic!("unexpected outcome: {:?}", other),
    }
    match phant::web::read_body(Ok(Vec::new())) {
        Ok(text) => assert_eq!(text, ""),
        other => panic!("unexpected outcome: {:?}", other),
    }
    match phant::web::read_body(Ok(vec![0x66, 0xFF, 0x6F])) {
        Err(Error::Io(message)) => assert_eq!(message, "response body is not valid UTF-8"),
        other => panic!("unexpected outcome: {:?}", other),
    }
    match phant::web::read_body(Err(Error::Hyper("timed out".to_string()))) {
        Err(Error::Hyper(message)) => assert_eq!(message, "timed out"),
        other => panic!("unexpected outcome: {:?}", other),
    }
}

#[test]
fn push_leaves_the_row_when_the_body_is_unreadable() {
    let mut p = basic_phant();
    let outcome = p.push(|_request| Ok(vec![0xC3, 0x28]));
    assert!(matches!(outcome, Err(Error::Io(_))));
    assert_eq!(p.row_data().len(), 1);
}

#[test]
fn request_builders_follow_the_table() {
    let create = phant::web::create_stream_request("h", "{}");
    assert_eq!(create.method, Method::Post);
    assert_eq!(create.url, "h/streams");
    assert_eq!(create.body, Some("{}".to_string()));
    let push = phant::web::push_data_request("h", "p", "s", "a=1");
    assert_eq!(push.url, "h/input/p");
    assert_eq!(push.body, Some("a=1".to_string()));
    assert_eq!(header(&push, "Phant-Private-Key"), Some("s"));
    let clear = phant::web::clear_data_request("h", "p", "s");
    assert_eq!(clear.method, Method::Delete);
    assert_eq!(header(&clear, "Phant-Private-Key"), Some("s"));
    let delete = phant::web::delete_stream_request("h", "p", "d");
    assert_eq!(delete.method, Method::Delete);
    assert_eq!(header(&delete, "Phant-Delete-Key"), Some("d"));
    assert_eq!(header(&delete, "Phant-Private-Key"), None);
}

#[test]
fn web_functions_send_once() {
    let calls = Cell::new(0u32);
    let count = |reply: &str| {
        calls.set(calls.get() + 1);
        body(reply)
    };
    assert!(matches!(phant::web::create_stream("h", "{}", |_r| count("a")), Ok(_)));
    assert!(matches!(phant::web::push_data("h", "p", "s", "a=1", |_r| count("b")), Ok(_)));
    assert!(matches!(phant::web::clear_data("h", "p", "s", |_r| count("c")), Ok(_)));
    assert!(matches!(phant::web::delete_stream("h", "p", "d", |_r| count("d")), Ok(_)));
    assert_eq!(calls.get(), 4);
}

#[test]
fn errors_describe_themselves() {
    let cases = vec![
        (Error::Hyper("a".to_string()), ErrorKind::Hyper, "a"),
        (Error::Uri("b".to_string()), ErrorKind::Uri, "b"),
        (Error::Io("c".to_string()), ErrorKind::Io, "c"),
        (Error::Serde("d".to_string()), ErrorKind::Serde, "d"),
        (Error::NativeTls("e".to_string()), ErrorKind::NativeTls, "e"),
        (Error::Phant("f".to_string()), ErrorKind::Phant, "f"),
    ];
    for (error, kind, text) in cases {
        assert_eq!(error.kind(), kind);
        assert_eq!(error.description(), text);
    }
}
