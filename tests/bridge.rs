use navi_bridge::catalog::{
    bulk_insert_request, comment_request, create_comment_request, create_persona_request,
    document_request, health_request, list_documents_request, persona_request,
    search_documents_request, DEFAULT_BASE_URL,
};
use navi_bridge::decode::{
    comment_from_members, document_from_members, persona_from_members, text_list, comment_response, document_response, documents_response, persona_response,
    text_map_response, value_map_response,
};
use navi_bridge::encode::{encode_comment, encode_persona, frame_bulk};
use navi_bridge::error::BridgeError;
use navi_bridge::json::Json;
use navi_bridge::method::HttpMethod;
use navi_bridge::model::{Comment, Persona};
use navi_bridge::request::prepare;

const BASE: &str = "http://localhost:8001";

/// Plays a backend that echoes the posted JSON with an identifier injected.
fn echo_with_id(body: &str, id: i64) -> String {
    let mut v: serde_json::Value = serde_json::from_str(body).unwrap();
    v.as_object_mut()
        .unwrap()
        .insert("id".to_string(), serde_json::Value::from(id));
    serde_json::to_string(&v).unwrap()
}

#[test]
fn supported_methods_are_prepared_as_named() {
    for (name, m) in [("GET", HttpMethod::Get), ("POST", HttpMethod::Post), ("PUT", HttpMethod::Put)] {
        let q = prepare("http://localhost:8001/x", name, Some("{}")).unwrap();
        assert_eq!(q.method, m);
        assert_eq!(q.method.name(), name);
        assert_eq!(q.url, "http://localhost:8001/x");
        assert_eq!(q.body.as_deref(), Some("{}"));
        assert_eq!(q.content_type(), Some("application/json"));
    }
}

#[test]
fn request_without_body_has_no_content_type() {
    let q = prepare("http://localhost:8001/x", "GET", None).unwrap();
    assert_eq!(q.body, None);
    assert_eq!(q.content_type(), None);
}

#[test]
fn unsupported_method_is_refused() {
    for name in ["DELETE", "get", "PATCH", "", "GETS"] {
        let e = prepare("http://localhost:8001/x", name, None).unwrap_err();
        assert!(matches!(e, BridgeError::UnsupportedMethod));
        assert_eq!(e.message(), "Unsupported HTTP method");
    }
}

#[test]
fn default_base_url() {
    assert_eq!(DEFAULT_BASE_URL, "http://localhost:8001");
}

#[test]
fn fixed_urls() {
    let q = list_documents_request(BASE);
    assert_eq!((q.method, q.url.as_str(), q.body.is_none()), (HttpMethod::Get, "http://localhost:8001/documents", true));
    let q = health_request(BASE);
    assert_eq!((q.method, q.url.as_str(), q.body.is_none()), (HttpMethod::Get, "http://localhost:8001/health", true));
}

#[test]
fn identifiers_are_percent_encoded() {
    assert_eq!(document_request(BASE, "EPA-HQ-2024-0001").url, "http://localhost:8001/documents/EPA-HQ-2024-0001");
    assert_eq!(document_request(BASE, "a b/c?d&e").url, "http://localhost:8001/documents/a%20b%2Fc%3Fd%26e");
    assert_eq!(document_request(BASE, "é~_.").url, "http://localhost:8001/documents/%C3%A9~_.");
    assert_eq!(search_documents_request(BASE, "clean air").url, "http://localhost:8001/documents/search?q=clean%20air");
    assert_eq!(search_documents_request(BASE, "").url, "http://localhost:8001/documents/search?q=");
}

#[test]
fn numeric_identifiers_in_urls() {
    assert_eq!(persona_request(BASE, 7).url, "http://localhost:8001/personas/7");
    assert_eq!(persona_request(BASE, -12).url, "http://localhost:8001/personas/-12");
    assert_eq!(comment_request(BASE, 0).url, "http://localhost:8001/comments/0");
    assert_eq!(comment_request(BASE, i32::MIN).url, "http://localhost:8001/comments/-2147483648");
    assert_eq!(comment_request(BASE, i32::MAX).url, "http://localhost:8001/comments/2147483647");
}

#[test]
fn create_persona_body_has_null_identifier() {
    let q = create_persona_request(BASE, "Ann".to_string(), None, vec!["air".to_string(), "water".to_string()]);
    assert_eq!(q.method, HttpMethod::Post);
    assert_eq!(q.url, "http://localhost:8001/personas");
    assert_eq!(
        q.body.as_deref(),
        Some("{\"id\":null,\"name\":\"Ann\",\"role\":null,\"interests\":[\"air\",\"water\"]}")
    );
    assert_eq!(q.content_type(), Some("application/json"));
}

#[test]
fn persona_texts_are_escaped() {
    let p = Persona {
        id: Some(3),
        name: "A \"quoted\" name".to_string(),
        role: Some("back\\slash".to_string()),
        interests: vec![],
    };
    assert_eq!(
        encode_persona(&p),
        "{\"id\":3,\"name\":\"A \\\"quoted\\\" name\",\"role\":\"back\\\\slash\",\"interests\":[]}"
    );
}

#[test]
fn create_comment_body_is_draft() {
    let q = create_comment_request(BASE, 7, "D1".to_string(), Some("T".to_string()), "hello".to_string());
    assert_eq!(q.method, HttpMethod::Post);
    assert_eq!(q.url, "http://localhost:8001/comments?persona_id=7");
    assert_eq!(
        q.body.as_deref(),
        Some("{\"id\":null,\"persona_id\":7,\"document_id\":\"D1\",\"title\":\"T\",\"content\":\"hello\",\"status\":\"draft\"}")
    );
}

#[test]
fn comment_encoding_keeps_given_status() {
    let c = Comment {
        id: Some(1),
        persona_id: -4,
        document_id: "D".to_string(),
        title: None,
        content: "x\ny".to_string(),
        status: "sent".to_string(),
    };
    assert_eq!(
        encode_comment(&c),
        "{\"id\":1,\"persona_id\":-4,\"document_id\":\"D\",\"title\":null,\"content\":\"x\\ny\",\"status\":\"sent\"}"
    );
}

#[test]
fn bulk_body_frames_documents() {
    let docs = vec![serde_json::from_str::<serde_json::Value>("{\"a\":1}").unwrap(), serde_json::Value::from(2)];
    let q = bulk_insert_request(BASE, &docs);
    assert_eq!(q.method, HttpMethod::Post);
    assert_eq!(q.url, "http://localhost:8001/documents/bulk");
    assert_eq!(q.body.as_deref(), Some("{\"documents\":[{\"a\":1},2]}"));
    let q = bulk_insert_request(BASE, &vec![]);
    assert_eq!(q.body.as_deref(), Some("{\"documents\":[]}"));
    assert_eq!(frame_bulk(&vec!["1".to_string()]), "{\"documents\":[1]}");
}

#[test]
fn get_document_scenario() {
    let q = document_request(BASE, "EPA-HQ-2024-0001");
    assert_eq!(q.url, "http://localhost:8001/documents/EPA-HQ-2024-0001");
    let reply = "{\"id\":1,\"document_id\":\"EPA-HQ-2024-0001\",\"title\":\"T\",\"content\":\"C\",\"agency_id\":\"EPA\",\"document_type\":null,\"web_comment_link\":null,\"web_document_link\":null,\"posted_date\":null}";
    let d = document_response(Ok(reply.to_string())).unwrap();
    assert_eq!(d.id, 1);
    assert_eq!(d.document_id, "EPA-HQ-2024-0001");
    assert_eq!(d.title, "T");
    assert_eq!(d.content, "C");
    assert_eq!(d.agency_id, "EPA");
    assert_eq!(d.document_type, None);
    assert_eq!(d.web_comment_link, None);
    assert_eq!(d.web_document_link, None);
    assert_eq!(d.posted_date, None);
}

#[test]
fn health_check_scenario() {
    let m = text_map_response(Ok("{\"status\":\"ok\"}".to_string())).unwrap();
    assert_eq!(m, vec![("status".to_string(), "ok".to_string())]);
}

#[test]
fn create_comment_scenario() {
    let q = create_comment_request(BASE, 7, "D1".to_string(), None, "hello".to_string());
    let reply = echo_with_id(q.body.as_deref().unwrap(), 42);
    let c = comment_response(Ok(reply)).unwrap();
    assert_eq!(c.id, Some(42));
    assert_eq!(c.persona_id, 7);
    assert_eq!(c.document_id, "D1");
    assert_eq!(c.title, None);
    assert_eq!(c.content, "hello");
    assert_eq!(c.status, "draft");
}

#[test]
fn persona_round_trip() {
    let q = create_persona_request(BASE, "Bo \"B\"".to_string(), Some("analyst".to_string()), vec!["é".to_string()]);
    let reply = echo_with_id(q.body.as_deref().unwrap(), 9);
    let p = persona_response(Ok(reply)).unwrap();
    assert_eq!(p.id, Some(9));
    assert_eq!(p.name, "Bo \"B\"");
    assert_eq!(p.role.as_deref(), Some("analyst"));
    assert_eq!(p.interests, vec!["é".to_string()]);
}

#[test]
fn transport_failure_passes_through() {
    let e = document_response(Err("connection refused".to_string())).unwrap_err();
    assert!(matches!(&e, BridgeError::Transport(m) if m == "connection refused"));
    assert_eq!(e.message(), "connection refused");
}

#[test]
fn malformed_body_is_a_decode_failure() {
    let e = document_response(Ok("not json".to_string())).unwrap_err();
    assert!(matches!(e, BridgeError::Decode(_)));
    let m = e.message();
    assert!(!m.is_empty());
    assert_ne!(m, "Unsupported HTTP method");
}

#[test]
fn missing_and_mistyped_members() {
    let e = document_response(Ok("{\"id\":1}".to_string())).unwrap_err();
    assert_eq!(e.message(), "invalid response body: missing field `document_id`");
    let e = persona_response(Ok("{\"name\":5,\"interests\":[]}".to_string())).unwrap_err();
    assert_eq!(e.message(), "invalid response body: invalid type for field `name`");
    let e = persona_response(Ok("{\"name\":\"a\",\"interests\":[1]}".to_string())).unwrap_err();
    assert_eq!(e.message(), "invalid response body: invalid type for field `interests`");
    let e = comment_response(Ok("{\"id\":4294967296,\"persona_id\":1,\"document_id\":\"d\",\"content\":\"c\",\"status\":\"s\"}".to_string())).unwrap_err();
    assert_eq!(e.message(), "invalid response body: invalid type for field `id`");
    let e = comment_response(Ok("[1]".to_string())).unwrap_err();
    assert_eq!(e.message(), "invalid response body: invalid type: expected an object");
}

#[test]
fn optional_members_may_be_absent() {
    let p = persona_response(Ok("{\"name\":\"a\",\"interests\":[],\"extra\":true}".to_string())).unwrap();
    assert_eq!(p.id, None);
    assert_eq!(p.role, None);
}

#[test]
fn document_list_and_value_map() {
    let docs = documents_response(Ok("[]".to_string())).unwrap();
    assert!(docs.is_empty());
    let one = "[{\"id\":2,\"document_id\":\"X\",\"title\":\"t\",\"content\":\"c\",\"agency_id\":\"A\",\"posted_date\":\"2024-01-01\"}]";
    let docs = documents_response(Ok(one.to_string())).unwrap();
    assert_eq!(docs.len(), 1);
    assert_eq!(docs[0].posted_date.as_deref(), Some("2024-01-01"));
    let e = documents_response(Ok("{}".to_string())).unwrap_err();
    assert_eq!(e.message(), "invalid response body: invalid type: expected an array");
    let m = value_map_response(Ok("{\"count\":3}".to_string())).unwrap();
    assert_eq!(m.len(), 1);
    assert_eq!(m[0].0, "count");
    assert!(matches!(m[0].1, Json::Int(3)));
    let e = value_map_response(Ok("[1,2]".to_string())).unwrap_err();
    assert_eq!(e.message(), "invalid response body: invalid type: expected an object");
    let e = text_map_response(Ok("{\"status\":1}".to_string())).unwrap_err();
    assert_eq!(e.message(), "invalid response body: invalid type for field `status`");
}

fn members(pairs: Vec<(&str, Json)>) -> Vec<(String, Json)> {
    pairs.into_iter().map(|(k, v)| (k.to_string(), v)).collect()
}

fn text(s: &str) -> Json {
    Json::Text(s.to_string())
}

#[test]
fn persona_from_members_reads_each_member() {
    let m = members(vec![
        ("id", Json::Int(5)),
        ("interests", Json::List(vec![text("air")])),
        ("name", text("Ann")),
        ("role", Json::Null),
    ]);
    let p = persona_from_members(&m).unwrap();
    assert_eq!((p.id, p.name.as_str(), p.role, p.interests), (Some(5), "Ann", None, vec!["air".to_string()]));
    let e = persona_from_members(&members(vec![("interests", Json::List(vec![]))])).unwrap_err();
    assert_eq!(e.message(), "invalid response body: missing field `name`");
    let e = persona_from_members(&members(vec![("id", Json::Int(1 << 40)), ("name", text("a"))])).unwrap_err();
    assert_eq!(e.message(), "invalid response body: invalid type for field `id`");
    let e = persona_from_members(&members(vec![("name", text("a")), ("role", Json::Bool(true))])).unwrap_err();
    assert_eq!(e.message(), "invalid response body: invalid type for field `role`");
}

#[test]
fn comment_from_members_reads_each_member() {
    let m = members(vec![
        ("content", text("c")),
        ("document_id", text("D")),
        ("persona_id", Json::Int(-3)),
        ("status", text("draft")),
        ("title", text("T")),
    ]);
    let c = comment_from_members(&m).unwrap();
    assert_eq!(c.id, None);
    assert_eq!(c.persona_id, -3);
    assert_eq!(c.title.as_deref(), Some("T"));
    assert_eq!(c.status, "draft");
    let e = comment_from_members(&members(vec![("persona_id", text("7"))])).unwrap_err();
    assert_eq!(e.message(), "invalid response body: invalid type for field `persona_id`");
    let e = comment_from_members(&members(vec![
        ("content", text("c")),
        ("document_id", text("D")),
        ("persona_id", Json::Int(7)),
    ]))
    .unwrap_err();
    assert_eq!(e.message(), "invalid response body: missing field `status`");
}

#[test]
fn document_from_members_reads_each_member() {
    let m = members(vec![
        ("agency_id", text("A")),
        ("content", text("c")),
        ("document_id", text("X")),
        ("id", Json::Int(1)),
        ("title", text("t")),
        ("web_comment_link", Json::Null),
        ("web_document_link", text("http://d")),
    ]);
    let d = document_from_members(&m).unwrap();
    assert_eq!(d.id, 1);
    assert_eq!(d.agency_id, "A");
    assert_eq!(d.web_comment_link, None);
    assert_eq!(d.web_document_link.as_deref(), Some("http://d"));
    let e = document_from_members(&members(vec![("id", Json::Null)])).unwrap_err();
    assert_eq!(e.message(), "invalid response body: invalid type for field `id`");
}

#[test]
fn text_list_keeps_order_and_refuses_others() {
    let items = Json::List(vec![text("b"), text("a")]);
    assert_eq!(text_list("interests", Some(&items)).unwrap(), vec!["b".to_string(), "a".to_string()]);
    assert_eq!(text_list("interests", Some(&Json::List(vec![]))).unwrap(), Vec::<String>::new());
    let e = text_list("interests", Some(&Json::List(vec![text("a"), Json::Null]))).unwrap_err();
    assert_eq!(e.message(), "invalid response body: invalid type for field `interests`");
    let e = text_list("interests", None).unwrap_err();
    assert_eq!(e.message(), "invalid response body: missing field `interests`");
}

#[test]
fn error_messages() {
    assert_eq!(BridgeError::UnsupportedMethod.message(), "Unsupported HTTP method");
    assert_eq!(BridgeError::transport("timed out".to_string()).message(), "timed out");
    assert_eq!(BridgeError::Decode("x".to_string()).message(), "invalid response body: x");
}

#[test]
fn health_reply_with_non_text_value_fails() {
    let e = text_map_response(Ok("{\"status\":\"ok\",\"n\":1}".to_string())).unwrap_err();
    assert_eq!(e.message(), "invalid response body: invalid type for field `n`");
}

#[test]
fn numbers_beyond_i64_are_kept_as_text() {
    let m = value_map_response(Ok("{\"x\":1.5}".to_string())).unwrap();
    assert!(matches!(&m[0].1, Json::OtherNumber(t) if t == "1.5"));
}

#[test]
fn control_characters_are_escaped() {
    let p = Persona { id: None, name: "a\tb\u{1}c/".to_string(), role: None, interests: vec![] };
    assert_eq!(
        encode_persona(&p),
        "{\"id\":null,\"name\":\"a\\tb\\u0001c/\",\"role\":null,\"interests\":[]}"
    );
}
