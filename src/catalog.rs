//! The operations the UI can invoke, each mapped to one request.
use vstd::prelude::*;
use vstd::string::StringSliceAdditionalSpecFns;
use crate::encode::{bulk_frame, comment_text, encode_bulk, encode_comment, encode_persona, persona_text};
use crate::json::value_text_of;
use crate::method::HttpMethod;
use crate::model::{Comment, Persona};
use crate::request::ApiRequest;
use crate::text::{decimal, escaped, push_decimal, push_escaped};

verus! {

/// Whether `s` begins with `t`.
pub open spec fn starts_with(s: Seq<char>, t: Seq<char>) -> bool {
    t.len() <= s.len() && s.subrange(0, t.len() as int) == t
}

/// Whether `s` ends with `t`.
pub open spec fn ends_with(s: Seq<char>, t: Seq<char>) -> bool {
    t.len() <= s.len() && s.subrange(s.len() - t.len(), s.len() as int) == t
}

/// Where the backend listens unless configured otherwise.
pub const DEFAULT_BASE_URL: &'static str = "http://localhost:8001";

fn join(base: &str, path: &str) -> (r: String)
    ensures
        r@ == base@ + path@,
{
    let mut r = String::from_str(base);
    r.append(path);
    r
}

fn get(url: String) -> (r: ApiRequest)
    ensures
        r.method == HttpMethod::Get,
        r.url == url,
        r.body is None,
{
    ApiRequest { method: HttpMethod::Get, url, body: None }
}

/// Lists every document.
pub fn list_documents_request(base: &str) -> (r: ApiRequest)
    ensures
        r.method == HttpMethod::Get,
        r.url@ == base@ + "/documents"@,
        r.body is None,
{
    get(join(base, "/documents"))
}

/// Fetches one document by its external identifier.
pub fn document_request(base: &str, document_id: &str) -> (r: ApiRequest)
    ensures
        r.method == HttpMethod::Get,
        r.url@ == base@ + "/documents/"@ + escaped(document_id.spec_bytes()),
        r.body is None,
{
    let mut url = join(base, "/documents/");
    push_escaped(&mut url, document_id);
    get(url)
}

/// Searches the documents for a free-text query.
pub fn search_documents_request(base: &str, query: &str) -> (r: ApiRequest)
    ensures
        r.method == HttpMethod::Get,
        r.url@ == base@ + "/documents/search?q="@ + escaped(query.spec_bytes()),
        r.body is None,
{
    let mut url = join(base, "/documents/search?q=");
    push_escaped(&mut url, query);
    get(url)
}

/// Stores a new persona; the body never carries an identifier.
pub fn create_persona_request(
    base: &str,
    name: String,
    role: Option<String>,
    interests: Vec<String>,
) -> (r: ApiRequest)
    ensures
        r.method == HttpMethod::Post,
        r.url@ == base@ + "/personas"@,
        r.body matches Some(b) && b@ == persona_text(
            (Persona { id: None, name: name, role: role, interests: interests }),
        ),
        r.body matches Some(b) && starts_with(b@, "{\"id\":null,"@),
{
    let persona = Persona::for_creation(name, role, interests);
    let body = encode_persona(&persona);
    proof {
        reveal_strlit("{\"id\":");
        reveal_strlit("null");
        reveal_strlit(",\"name\":");
        reveal_strlit("{\"id\":null,");
        let head = "{\"id\":"@ + "null"@ + ",\"name\":"@;
        assert(head.subrange(0, 11) =~= "{\"id\":null,"@);
        let rest = body@.subrange(head.len() as int, body@.len() as int);
        assert(body@ =~= head + rest);
        assert(body@.subrange(0, 11) =~= head.subrange(0, 11));
    }
    ApiRequest { method: HttpMethod::Post, url: join(base, "/personas"), body: Some(body) }
}

/// Fetches one persona by its identifier.
pub fn persona_request(base: &str, persona_id: i32) -> (r: ApiRequest)
    ensures
        r.method == HttpMethod::Get,
        r.url@ == base@ + "/personas/"@ + decimal(persona_id as int),
        r.body is None,
{
    let mut url = join(base, "/personas/");
    push_decimal(&mut url, persona_id);
    get(url)
}

/// Stores a new comment; the body carries no identifier and the draft status.
pub fn create_comment_request(
    base: &str,
    persona_id: i32,
    document_id: String,
    title: Option<String>,
    content: String,
) -> (r: ApiRequest)
    ensures
        r.method == HttpMethod::Post,
        r.url@ == base@ + "/comments?persona_id="@ + decimal(persona_id as int),
        r.body matches Some(b) && exists|status: String|
            status@ == "draft"@ && b@ == #[trigger] comment_text(
                (Comment {
                    id: None,
                    persona_id: persona_id,
                    document_id: document_id,
                    title: title,
                    content: content,
                    status: status,
                }),
            ),
        r.body matches Some(b) && ends_with(b@, ",\"status\":\"draft\"}"@),
{
    let comment = Comment::for_creation(persona_id, document_id, title, content);
    let body = encode_comment(&comment);
    proof {
        reveal_strlit("draft");
        reveal_strlit(",\"status\":");
        reveal_strlit("}");
        reveal_strlit(",\"status\":\"draft\"}");
        let tail = ",\"status\":"@ + (seq!['"'] + comment.status@ + seq!['"']) + "}"@;
        assert(tail =~= ",\"status\":\"draft\"}"@);
        let head = body@.subrange(0, body@.len() - tail.len());
        assert(body@ =~= head + tail);
        assert(body@.subrange(body@.len() - tail.len(), body@.len() as int) =~= tail);
    }
    let mut url = join(base, "/comments?persona_id=");
    push_decimal(&mut url, persona_id);
    ApiRequest { method: HttpMethod::Post, url, body: Some(body) }
}

/// Fetches one comment by its identifier.
pub fn comment_request(base: &str, comment_id: i32) -> (r: ApiRequest)
    ensures
        r.method == HttpMethod::Get,
        r.url@ == base@ + "/comments/"@ + decimal(comment_id as int),
        r.body is None,
{
    let mut url = join(base, "/comments/");
    push_decimal(&mut url, comment_id);
    get(url)
}

/// Asks the backend whether it is up.
pub fn health_request(base: &str) -> (r: ApiRequest)
    ensures
        r.method == HttpMethod::Get,
        r.url@ == base@ + "/health"@,
        r.body is None,
{
    get(join(base, "/health"))
}

/// Inserts many documents at once, given as arbitrary JSON values.
pub fn bulk_insert_request(base: &str, documents: &Vec<serde_json::Value>) -> (r: ApiRequest)
    ensures
        r.method == HttpMethod::Post,
        r.url@ == base@ + "/documents/bulk"@,
        r.body matches Some(b) && b@ == bulk_frame(
            documents@.map_values(|v: serde_json::Value| value_text_of(v)),
        ),
{
    let body = encode_bulk(documents);
    ApiRequest { method: HttpMethod::Post, url: join(base, "/documents/bulk"), body: Some(body) }
}

} // verus!
