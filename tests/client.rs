use disco_client::client::{expect_names, expect_success, DiscoClient};
use disco_client::error::ClientError;
use disco_client::http::{HttpReply, Method};
use disco_client::text::{decimal_text, list_text_of};

fn reply(status: u16, body: &str) -> Result<HttpReply, String> {
    Ok(HttpReply { status, body: body.as_bytes().to_vec() })
}

fn texts(items: &[&str]) -> Vec<String> {
    items.iter().map(|s| s.to_string()).collect()
}

#[test]
fn create_index_request_shape() {
    let c = DiscoClient::new("http://localhost:9000");
    let req = c.create_index("books", 128).unwrap();
    assert_eq!(req.method, Method::Post);
    assert_eq!(req.target, "http://localhost:9000/index");
    assert_eq!(req.uri.path(), "/index");
    assert_eq!(req.content_type.as_deref(), Some("application/json"));
    assert_eq!(req.body.as_deref(), Some(r#"{"name": "books", "dim": 128}"#));
}

#[test]
fn create_index_escapes_the_name() {
    let c = DiscoClient::new("http://localhost:9000");
    let req = c.create_index("a\"b", 3).unwrap();
    let body = req.body.unwrap();
    assert_eq!(body, r#"{"name": "a\"b", "dim": 3}"#);
    let v: serde_json::Value = serde_json::from_str(&body).unwrap();
    assert_eq!(v["name"].as_str(), Some("a\"b"));
    assert_eq!(v["dim"].as_u64(), Some(3));
}

#[test]
fn create_index_succeeds_on_status_200() {
    let c = DiscoClient::default();
    for dim in [0u8, 1, 9, 10, 99, 100, 255] {
        let req = c.create_index("idx", dim).unwrap();
        let v: serde_json::Value = serde_json::from_str(req.body.as_deref().unwrap()).unwrap();
        assert_eq!(v["dim"].as_u64(), Some(dim as u64));
        assert!(expect_success(reply(200, "")).is_ok());
    }
}

#[test]
fn create_index_fails_on_other_status() {
    for status in [201u16, 404, 500] {
        match expect_success(reply(status, "nope")) {
            Err(ClientError::UnexpectedStatus { status: s, body }) => {
                assert_eq!(s, status);
                assert_eq!(body, b"nope".to_vec());
            }
            other => panic!("unexpected {:?}", other),
        }
    }
}

#[test]
fn list_indexes_keeps_order() {
    let c = DiscoClient::new("http://localhost:8000");
    let req = c.get_all_indexes().unwrap();
    assert_eq!(req.method, Method::Get);
    assert_eq!(req.target, "http://localhost:8000/index");
    assert_eq!(req.body, None);
    assert_eq!(req.content_type, None);
    let names = expect_names(reply(200, r#"["a","b"]"#)).unwrap();
    assert_eq!(names, texts(&["a", "b"]));
    let names = expect_names(reply(200, r#"["b","a"]"#)).unwrap();
    assert_eq!(names, texts(&["b", "a"]));
}

#[test]
fn list_indexes_empty() {
    assert_eq!(expect_names(reply(200, "[]")).unwrap(), Vec::<String>::new());
}

#[test]
fn list_indexes_malformed_body_is_decode_failure() {
    for body in ["not json", "[1,2]", r#"{"a":"b"}"#, "[\"a\""] {
        match expect_names(reply(200, body)) {
            Err(ClientError::Decode { description, body: b }) => {
                assert_eq!(description, "the reply body is not a JSON array of strings");
                assert_eq!(b, body.as_bytes().to_vec());
            }
            other => panic!("unexpected {:?}", other),
        }
    }
}

#[test]
fn list_indexes_invalid_utf8_is_decode_failure() {
    let r = expect_names(Ok(HttpReply { status: 200, body: vec![b'[', b'"', 0xff, b'"', b']'] }));
    assert!(matches!(r, Err(ClientError::Decode { .. })));
}

#[test]
fn list_indexes_bad_status() {
    let r = expect_names(reply(503, r#"["a"]"#));
    assert!(matches!(r, Err(ClientError::UnexpectedStatus { status: 503, .. })));
}

#[test]
fn insert_vector_body() {
    let c = DiscoClient::new("http://localhost:8000");
    let req = c.insert_vector("idx", &texts(&["1.0", "2.0", "3.0"])).unwrap();
    assert_eq!(req.method, Method::Post);
    assert_eq!(req.target, "http://localhost:8000/index/idx/vectors");
    assert_eq!(req.content_type.as_deref(), Some("application/json"));
    let body = req.body.unwrap();
    assert_eq!(body, r#"{"vec": [1.0, 2.0, 3.0]}"#);
    let got: serde_json::Value = serde_json::from_str(&body).unwrap();
    let want: serde_json::Value = serde_json::from_str(r#"{"vec":[1.0,2.0,3.0]}"#).unwrap();
    assert_eq!(got, want);
}

#[test]
fn insert_vector_empty() {
    let c = DiscoClient::new("http://localhost:8000");
    let req = c.insert_vector("idx", &Vec::new()).unwrap();
    assert_eq!(req.body.as_deref(), Some(r#"{"vec": []}"#));
}

#[test]
fn query_knn_request_and_result() {
    let c = DiscoClient::new("http://localhost:8000");
    let req = c.query_knn("idx", &texts(&["0.1", "0.2"]), 5).unwrap();
    assert_eq!(req.method, Method::Post);
    assert_eq!(req.target, "http://localhost:8000/index/idx/query");
    let body = req.body.unwrap();
    assert_eq!(body, r#"{"query": [0.1, 0.2], "k": 5}"#);
    let v: serde_json::Value = serde_json::from_str(&body).unwrap();
    assert_eq!(v["k"].as_u64(), Some(5));
    assert_eq!(v["query"][0].as_f64(), Some(0.1));
    assert_eq!(v["query"][1].as_f64(), Some(0.2));
    let ids = expect_names(reply(200, r#"["x","y","z"]"#)).unwrap();
    assert_eq!(ids, texts(&["x", "y", "z"]));
}

#[test]
fn transport_failure_for_every_operation() {
    let msg = "connection refused".to_string();
    for r in [expect_success(Err(msg.clone())).err(), expect_names(Err(msg.clone())).err()] {
        match r {
            Some(ClientError::Transport(m)) => assert_eq!(m, msg),
            other => panic!("unexpected {:?}", other),
        }
    }
}

#[test]
fn listing_twice_gives_the_same_names() {
    let c = DiscoClient::new("http://localhost:8000");
    let a = c.get_all_indexes().unwrap();
    let b = c.get_all_indexes().unwrap();
    assert_eq!(a.target, b.target);
    assert_eq!(a.uri, b.uri);
    let first = expect_names(reply(200, r#"["a","b"]"#)).unwrap();
    let second = expect_names(reply(200, r#"["a","b"]"#)).unwrap();
    assert_eq!(first, second);
}

#[test]
fn default_base_url() {
    assert_eq!(DiscoClient::default().base_url(), "http://localhost:8000");
    assert_eq!(DiscoClient::new("http://example.com:1").base_url(), "http://example.com:1");
}

#[test]
fn invalid_target_is_reported() {
    let c = DiscoClient::new("http://localhost:8000");
    match c.insert_vector("a b", &texts(&["1.0"])) {
        Err(ClientError::InvalidUri(t)) => assert_eq!(t, "http://localhost:8000/index/a b/vectors"),
        other => panic!("unexpected {:?}", other),
    }
    assert!(matches!(DiscoClient::new("http://bad host").get_all_indexes(), Err(ClientError::InvalidUri(_))));
}

#[test]
fn decimal_digits() {
    assert_eq!(decimal_text(0), "0");
    assert_eq!(decimal_text(7), "7");
    assert_eq!(decimal_text(10), "10");
    assert_eq!(decimal_text(42), "42");
    assert_eq!(decimal_text(100), "100");
    assert_eq!(decimal_text(255), "255");
}

#[test]
fn number_lists() {
    assert_eq!(list_text_of(&Vec::new()), "[]");
    assert_eq!(list_text_of(&texts(&["1"])), "[1]");
    assert_eq!(list_text_of(&texts(&["1", "-2.5", "3e-7"])), "[1, -2.5, 3e-7]");
}

#[test]
fn error_messages() {
    assert_eq!(ClientError::Transport("down".to_string()).message(), "transport failure: down");
    assert_eq!(
        ClientError::UnexpectedStatus { status: 500, body: Vec::new() }.message(),
        "unexpected status"
    );
    assert_eq!(
        ClientError::InvalidUri("x y".to_string()).message(),
        "invalid request target: x y"
    );
}
