//! Response decoding: a JSON text read into the shape an operation expects.
use vstd::prelude::*;
use crate::error::{decode_message_is_distinct, BridgeError};
use crate::json::{parse_json, parsed_of, Json};
use crate::model::{Comment, Document, Persona};
use crate::text::same_text;

verus! {

/// The description of a required member that is not there.
pub open spec fn missing_text(field: Seq<char>) -> Seq<char> {
    "missing field `"@ + field + "`"@
}

/// The description of a member whose value has the wrong kind.
pub open spec fn mistyped_text(field: Seq<char>) -> Seq<char> {
    "invalid type for field `"@ + field + "`"@
}

/// The description of a response that is not a JSON object, or not an array.
pub open spec fn shape_text(expected: Seq<char>) -> Seq<char> {
    "invalid type: expected "@ + expected
}

/// A decode failure with exactly the given description.
pub open spec fn decode_failure(r: BridgeError, text: Seq<char>) -> bool {
    r matches BridgeError::Decode(m) && m@ == text
}

fn about(lead: &str, field: &str, close: &str) -> (r: BridgeError)
    ensures
        r matches BridgeError::Decode(m) && m@ == lead@ + field@ + close@,
{
    let mut m = String::from_str(lead);
    m.append(field);
    m.append(close);
    BridgeError::Decode(m)
}

fn missing(field: &str) -> (r: BridgeError)
    ensures
        decode_failure(r, missing_text(field@)),
{
    about("missing field `", field, "`")
}

fn mistyped(field: &str) -> (r: BridgeError)
    ensures
        decode_failure(r, mistyped_text(field@)),
{
    about("invalid type for field `", field, "`")
}

fn wrong_shape(expected: &str) -> (r: BridgeError)
    ensures
        decode_failure(r, shape_text(expected@)),
{
    let mut m = String::from_str("invalid type: expected ");
    m.append(expected);
    BridgeError::Decode(m)
}

/// The value an optional reference points to.
pub open spec fn deref_of(item: Option<&Json>) -> Option<Json> {
    match item {
        Some(j) => Some(*j),
        None => None,
    }
}

/// The text a member holds, if it is a text.
pub open spec fn text_of(item: Option<Json>) -> Option<String> {
    match item {
        Some(Json::Text(s)) => Some(s),
        _ => None,
    }
}

/// Whether an optional text member reads: absent, `null`, or a text.
pub open spec fn optional_text_reads(item: Option<Json>) -> bool {
    match item {
        None | Some(Json::Null) | Some(Json::Text(_)) => true,
        _ => false,
    }
}

/// Whether a JSON integer fits the 32-bit identifiers of the records.
pub open spec fn fits_i32(i: i64) -> bool {
    i32::MIN <= i <= i32::MAX
}

/// The 32-bit integer a member holds, if it holds one.
pub open spec fn int32_of(item: Option<Json>) -> Option<i32> {
    match item {
        Some(Json::Int(i)) => if fits_i32(i) {
            Some(i as i32)
        } else {
            None
        },
        _ => None,
    }
}

/// Whether an optional 32-bit integer member reads: absent, `null`, or such an integer.
pub open spec fn optional_i32_reads(item: Option<Json>) -> bool {
    match item {
        None | Some(Json::Null) => true,
        Some(Json::Int(i)) => fits_i32(i),
        _ => false,
    }
}

/// Whether every item of a list is a text.
pub open spec fn all_texts(items: Seq<Json>) -> bool {
    forall|k: int| 0 <= k < items.len() ==> #[trigger] items[k] is Text
}

/// The texts a member holds, if it is a list of texts only.
pub open spec fn text_list_of(item: Option<Json>) -> Option<Seq<String>> {
    match item {
        Some(Json::List(v)) => if all_texts(v@) {
            Some(v@.map_values(|j: Json| j->Text_0))
        } else {
            None
        },
        _ => None,
    }
}

/// Reads a required text member; `item` is the member's value, `None` when absent.
pub fn required_text(field: &str, item: Option<&Json>) -> (r: Result<String, BridgeError>)
    ensures
        r is Ok <==> text_of(deref_of(item)) is Some,
        r matches Ok(s) ==> text_of(deref_of(item)) == Some(s),
        item is None ==> (r matches Err(e) && decode_failure(e, missing_text(field@))),
        item is Some && r is Err ==> (r matches Err(e) && decode_failure(e, mistyped_text(field@))),
{
    match item {
        Some(Json::Text(s)) => Ok(s.clone()),
        None => Err(missing(field)),
        _ => Err(mistyped(field)),
    }
}

/// Reads an optional text member: absent and `null` both read as `None`.
pub fn optional_text(field: &str, item: Option<&Json>) -> (r: Result<Option<String>, BridgeError>)
    ensures
        r is Ok <==> optional_text_reads(deref_of(item)),
        r matches Ok(s) ==> s == text_of(deref_of(item)),
        r matches Err(e) ==> decode_failure(e, mistyped_text(field@)),
{
    match item {
        Some(Json::Text(s)) => Ok(Some(s.clone())),
        None => Ok(None),
        Some(Json::Null) => Ok(None),
        _ => Err(mistyped(field)),
    }
}

/// Reads a required 32-bit integer member.
pub fn required_i32(field: &str, item: Option<&Json>) -> (r: Result<i32, BridgeError>)
    ensures
        r is Ok <==> int32_of(deref_of(item)) is Some,
        r matches Ok(i) ==> int32_of(deref_of(item)) == Some(i),
        item is None ==> (r matches Err(e) && decode_failure(e, missing_text(field@))),
        item is Some && r is Err ==> (r matches Err(e) && decode_failure(e, mistyped_text(field@))),
{
    match item {
        Some(Json::Int(i)) => {
            if i32::MIN as i64 <= *i && *i <= i32::MAX as i64 {
                Ok(*i as i32)
            } else {
                Err(mistyped(field))
            }
        },
        None => Err(missing(field)),
        _ => Err(mistyped(field)),
    }
}

/// Reads an optional 32-bit integer member: absent and `null` read as `None`.
pub fn optional_i32(field: &str, item: Option<&Json>) -> (r: Result<Option<i32>, BridgeError>)
    ensures
        r is Ok <==> optional_i32_reads(deref_of(item)),
        r matches Ok(i) ==> i == int32_of(deref_of(item)),
        r matches Err(e) ==> decode_failure(e, mistyped_text(field@)),
{
    match item {
        Some(Json::Int(i)) => {
            if i32::MIN as i64 <= *i && *i <= i32::MAX as i64 {
                Ok(Some(*i as i32))
            } else {
                Err(mistyped(field))
            }
        },
        None => Ok(None),
        Some(Json::Null) => Ok(None),
        _ => Err(mistyped(field)),
    }
}

/// Reads a required list of texts, such as a persona's interests.
pub fn text_list(field: &str, item: Option<&Json>) -> (r: Result<Vec<String>, BridgeError>)
    ensures
        r is Ok <==> text_list_of(deref_of(item)) is Some,
        r matches Ok(v) ==> text_list_of(deref_of(item)) == Some(v@),
        item is None ==> (r matches Err(e) && decode_failure(e, missing_text(field@))),
        item is Some && r is Err ==> (r matches Err(e) && decode_failure(e, mistyped_text(field@))),
{
    let items = match item {
        Some(Json::List(items)) => items,
        None => return Err(missing(field)),
        _ => return Err(mistyped(field)),
    };
    let mut out: Vec<String> = Vec::new();
    let mut i: usize = 0;
    while i < items.len()
        invariant
            deref_of(item) == Some(Json::List(*items)),
            i <= items@.len(),
            out@.len() == i,
            forall|k: int| 0 <= k < i ==> items@[k] == Json::Text(#[trigger] out@[k]),
        decreases items@.len() - i,
    {
        match &items[i] {
            Json::Text(t) => out.push(t.clone()),
            _ => {
                assert(!(items@[i as int] is Text));
                return Err(mistyped(field));
            },
        }
        i = i + 1;
    }
    assert forall|k: int| 0 <= k < items@.len() implies #[trigger] items@[k] is Text by {
        assert(items@[k] == Json::Text(out@[k]));
    }
    assert(out@ =~= items@.map_values(|j: Json| j->Text_0));
    Ok(out)
}

/// The value of the first member named `key`, if any.
pub open spec fn member_of(m: Seq<(String, Json)>, key: Seq<char>) -> Option<Json>
    decreases m.len(),
{
    if m.len() == 0 {
        None
    } else if m[0].0@ == key {
        Some(m[0].1)
    } else {
        member_of(m.drop_first(), key)
    }
}

/// Finds the first member named `key`.
pub fn member<'a>(m: &'a Vec<(String, Json)>, key: &str) -> (r: Option<&'a Json>)
    ensures
        deref_of(r) == member_of(m@, key@),
{
    let mut i: usize = 0;
    assert(m@.subrange(0, m@.len() as int) =~= m@);
    while i < m.len()
        invariant
            i <= m@.len(),
            member_of(m@, key@) == member_of(m@.subrange(i as int, m@.len() as int), key@),
        decreases m@.len() - i,
    {
        let ghost rest = m@.subrange(i as int, m@.len() as int);
        assert(rest.drop_first() =~= m@.subrange(i + 1, m@.len() as int));
        assert(rest[0] == m@[i as int]);
        if same_text(m[i].0.as_str(), key) {
            return Some(&m[i].1);
        }
        i = i + 1;
    }
    assert(m@.subrange(i as int, m@.len() as int).len() == 0);
    None
}

/// How a persona is read from an object's members: it reads exactly when
/// every member does, and then holds what they hold.
pub open spec fn persona_reading(m: Seq<(String, Json)>, r: Result<Persona, BridgeError>) -> bool {
    &&& r is Ok <==> (optional_i32_reads(member_of(m, "id"@)) && text_of(member_of(m, "name"@)) is Some
        && optional_text_reads(member_of(m, "role"@)) && text_list_of(member_of(m, "interests"@)) is Some)
    &&& r matches Ok(p) ==> p.id == int32_of(member_of(m, "id"@)) && Some(p.name) == text_of(
        member_of(m, "name"@),
    ) && p.role == text_of(member_of(m, "role"@)) && Some(p.interests@) == text_list_of(
        member_of(m, "interests"@),
    )
}

/// How a persona is read from a JSON value: from an object only.
pub open spec fn persona_read(j: Json, r: Result<Persona, BridgeError>) -> bool {
    match j {
        Json::Object(m) => persona_reading(m@, r),
        _ => r matches Err(e) && decode_failure(e, shape_text("an object"@)),
    }
}

/// Reads a persona from an object's members.
pub fn persona_from_members(m: &Vec<(String, Json)>) -> (r: Result<Persona, BridgeError>)
    ensures
        persona_reading(m@, r),
        r matches Err(e) ==> e is Decode,
{
    let id = optional_i32("id", member(m, "id"))?;
    let name = required_text("name", member(m, "name"))?;
    let role = optional_text("role", member(m, "role"))?;
    let interests = text_list("interests", member(m, "interests"))?;
    Ok(Persona { id, name, role, interests })
}

/// Reads a persona from a JSON value.
pub fn read_persona(j: &Json) -> (r: Result<Persona, BridgeError>)
    ensures
        persona_read(*j, r),
        r matches Err(e) ==> e is Decode,
{
    match j {
        Json::Object(m) => persona_from_members(m),
        _ => Err(wrong_shape("an object")),
    }
}

/// How a document is read from an object's members.
pub open spec fn document_reading(m: Seq<(String, Json)>, r: Result<Document, BridgeError>) -> bool {
    &&& r is Ok <==> (int32_of(member_of(m, "id"@)) is Some && text_of(member_of(m, "document_id"@)) is Some
        && text_of(member_of(m, "title"@)) is Some && text_of(member_of(m, "content"@)) is Some
        && text_of(member_of(m, "agency_id"@)) is Some && optional_text_reads(member_of(m, "document_type"@))
        && optional_text_reads(member_of(m, "web_comment_link"@)) && optional_text_reads(
        member_of(m, "web_document_link"@),
    ) && optional_text_reads(member_of(m, "posted_date"@)))
    &&& r matches Ok(d) ==> Some(d.id) == int32_of(member_of(m, "id"@)) && Some(d.document_id)
        == text_of(member_of(m, "document_id"@)) && Some(d.title) == text_of(member_of(m, "title"@))
        && Some(d.content) == text_of(member_of(m, "content"@)) && Some(d.agency_id) == text_of(
        member_of(m, "agency_id"@),
    ) && d.document_type == text_of(member_of(m, "document_type"@)) && d.web_comment_link
        == text_of(member_of(m, "web_comment_link"@)) && d.web_document_link == text_of(
        member_of(m, "web_document_link"@),
    ) && d.posted_date == text_of(member_of(m, "posted_date"@))
}

/// How a document is read from a JSON value: from an object only.
pub open spec fn document_read(j: Json, r: Result<Document, BridgeError>) -> bool {
    match j {
        Json::Object(m) => document_reading(m@, r),
        _ => r matches Err(e) && decode_failure(e, shape_text("an object"@)),
    }
}

/// Reads a document from an object's members.
pub fn document_from_members(m: &Vec<(String, Json)>) -> (r: Result<Document, BridgeError>)
    ensures
        document_reading(m@, r),
        r matches Err(e) ==> e is Decode,
{
    let id = required_i32("id", member(m, "id"))?;
    let document_id = required_text("document_id", member(m, "document_id"))?;
    let title = required_text("title", member(m, "title"))?;
    let content = required_text("content", member(m, "content"))?;
    let agency_id = required_text("agency_id", member(m, "agency_id"))?;
    let document_type = optional_text("document_type", member(m, "document_type"))?;
    let web_comment_link = optional_text("web_comment_link", member(m, "web_comment_link"))?;
    let web_document_link = optional_text("web_document_link", member(m, "web_document_link"))?;
    let posted_date = optional_text("posted_date", member(m, "posted_date"))?;
    Ok(
        Document {
            id,
            document_id,
            title,
            content,
            agency_id,
            document_type,
            web_comment_link,
            web_document_link,
            posted_date,
        },
    )
}

/// Reads a document from a JSON value.
pub fn read_document(j: &Json) -> (r: Result<Document, BridgeError>)
    ensures
        document_read(*j, r),
        r matches Err(e) ==> e is Decode,
{
    match j {
        Json::Object(m) => document_from_members(m),
        _ => Err(wrong_shape("an object")),
    }
}

/// How a comment is read from an object's members.
pub open spec fn comment_reading(m: Seq<(String, Json)>, r: Result<Comment, BridgeError>) -> bool {
    &&& r is Ok <==> (optional_i32_reads(member_of(m, "id"@)) && int32_of(member_of(m, "persona_id"@)) is Some
        && text_of(member_of(m, "document_id"@)) is Some && optional_text_reads(member_of(m, "title"@))
        && text_of(member_of(m, "content"@)) is Some && text_of(member_of(m, "status"@)) is Some)
    &&& r matches Ok(c) ==> c.id == int32_of(member_of(m, "id"@)) && Some(c.persona_id) == int32_of(
        member_of(m, "persona_id"@),
    ) && Some(c.document_id) == text_of(member_of(m, "document_id"@)) && c.title == text_of(
        member_of(m, "title"@),
    ) && Some(c.content) == text_of(member_of(m, "content"@)) && Some(c.status) == text_of(
        member_of(m, "status"@),
    )
}

/// How a comment is read from a JSON value: from an object only.
pub open spec fn comment_read(j: Json, r: Result<Comment, BridgeError>) -> bool {
    match j {
        Json::Object(m) => comment_reading(m@, r),
        _ => r matches Err(e) && decode_failure(e, shape_text("an object"@)),
    }
}

/// Reads a comment from an object's members.
pub fn comment_from_members(m: &Vec<(String, Json)>) -> (r: Result<Comment, BridgeError>)
    ensures
        comment_reading(m@, r),
        r matches Err(e) ==> e is Decode,
{
    let id = optional_i32("id", member(m, "id"))?;
    let persona_id = required_i32("persona_id", member(m, "persona_id"))?;
    let document_id = required_text("document_id", member(m, "document_id"))?;
    let title = optional_text("title", member(m, "title"))?;
    let content = required_text("content", member(m, "content"))?;
    let status = required_text("status", member(m, "status"))?;
    Ok(Comment { id, persona_id, document_id, title, content, status })
}

/// Reads a comment from a JSON value.
pub fn read_comment(j: &Json) -> (r: Result<Comment, BridgeError>)
    ensures
        comment_read(*j, r),
        r matches Err(e) ==> e is Decode,
{
    match j {
        Json::Object(m) => comment_from_members(m),
        _ => Err(wrong_shape("an object")),
    }
}

/// The value a member takes when an optional text is written out: the text,
/// or `null`.
pub open spec fn echo_of(o: Option<String>) -> Option<Json> {
    match o {
        Some(s) => Some(Json::Text(s)),
        None => Some(Json::Null),
    }
}

/// Round trip of a persona: when the reply holds the submitted members as they
/// were sent, plus an identifier the backend assigned, the persona read back
/// has every submitted member unchanged and that identifier.
pub proof fn echoed_persona_reads_back(
    p: Persona,
    id: i64,
    interests: Vec<Json>,
    m: Seq<(String, Json)>,
    r: Result<Persona, BridgeError>,
)
    requires
        fits_i32(id),
        interests@ == p.interests@.map_values(|t: String| Json::Text(t)),
        member_of(m, "id"@) == Some(Json::Int(id)),
        member_of(m, "name"@) == Some(Json::Text(p.name)),
        member_of(m, "role"@) == echo_of(p.role),
        member_of(m, "interests"@) == Some(Json::List(interests)),
        persona_reading(m, r),
    ensures
        r is Ok,
        r->Ok_0.id == Some(id as i32),
        r->Ok_0.name == p.name,
        r->Ok_0.role == p.role,
        r->Ok_0.interests@ == p.interests@,
{
    assert forall|k: int| 0 <= k < interests@.len() implies #[trigger] interests@[k] is Text by {
        assert(interests@[k] == Json::Text(p.interests@[k]));
    }
    assert(interests@.map_values(|j: Json| j->Text_0) =~= p.interests@);
}

/// Round trip of a comment: when the reply holds the submitted members as they
/// were sent, plus an identifier the backend assigned, the comment read back
/// has every submitted member unchanged and that identifier.
pub proof fn echoed_comment_reads_back(
    c: Comment,
    id: i64,
    m: Seq<(String, Json)>,
    r: Result<Comment, BridgeError>,
)
    requires
        fits_i32(id),
        member_of(m, "id"@) == Some(Json::Int(id)),
        member_of(m, "persona_id"@) == Some(Json::Int(c.persona_id as i64)),
        member_of(m, "document_id"@) == Some(Json::Text(c.document_id)),
        member_of(m, "title"@) == echo_of(c.title),
        member_of(m, "content"@) == Some(Json::Text(c.content)),
        member_of(m, "status"@) == Some(Json::Text(c.status)),
        comment_reading(m, r),
    ensures
        r is Ok,
        r->Ok_0.id == Some(id as i32),
        r->Ok_0.persona_id == c.persona_id,
        r->Ok_0.document_id == c.document_id,
        r->Ok_0.title == c.title,
        r->Ok_0.content == c.content,
        r->Ok_0.status == c.status,
{
}

/// Whether a JSON value reads as some document.
pub open spec fn reads_as_document(j: Json) -> bool {
    exists|d: Document| #[trigger] document_read(j, Ok(d))
}

/// How the elements of an array read as documents: exactly when every
/// element reads as one, and then those documents in order.
pub open spec fn documents_reading(v: Seq<Json>, r: Result<Vec<Document>, BridgeError>) -> bool {
    &&& r is Ok <==> (forall|k: int| 0 <= k < v.len() ==> #[trigger] reads_as_document(v[k]))
    &&& r matches Ok(ds) ==> ds@.len() == v.len() && forall|k: int|
        0 <= k < v.len() ==> #[trigger] document_read(v[k], Ok(ds@[k]))
}

/// How a list of documents is read: from an array only.
pub open spec fn documents_read(j: Json, r: Result<Vec<Document>, BridgeError>) -> bool {
    match j {
        Json::List(v) => documents_reading(v@, r),
        _ => r matches Err(e) && decode_failure(e, shape_text("an array"@)),
    }
}

/// Reads an array of documents.
pub fn read_documents(j: &Json) -> (r: Result<Vec<Document>, BridgeError>)
    ensures
        documents_read(*j, r),
        r matches Err(e) ==> e is Decode,
{
    let values = match j {
        Json::List(values) => values,
        _ => return Err(wrong_shape("an array")),
    };
    let mut out: Vec<Document> = Vec::new();
    let mut i: usize = 0;
    while i < values.len()
        invariant
            *j == Json::List(*values),
            i <= values@.len(),
            out@.len() == i,
            forall|k: int| 0 <= k < i ==> #[trigger] document_read(values@[k], Ok(out@[k])),
        decreases values@.len() - i,
    {
        match read_document(&values[i]) {
            Ok(d) => out.push(d),
            Err(e) => {
                proof {
                    assert forall|d: Document| !document_read(values@[i as int], Ok(d)) by {
                        lemma_failed_read_has_no_document(values@[i as int], Err(e), d);
                    }
                    assert(!reads_as_document(values@[i as int]));
                    assert(!(forall|k: int| 0 <= k < values@.len() ==> #[trigger] reads_as_document(values@[k])));
                    assert(documents_reading(values@, Err(e)));
                }
                return Err(e);
            },
        }
        i = i + 1;
    }
    assert forall|k: int| 0 <= k < values@.len() implies #[trigger] reads_as_document(values@[k]) by {
        assert(document_read(values@[k], Ok(out@[k])));
    }
    Ok(out)
}

proof fn lemma_failed_read_has_no_document(j: Json, a: Result<Document, BridgeError>, d: Document)
    requires
        document_read(j, a),
        a is Err,
    ensures
        !document_read(j, Ok(d)),
{
}

/// How an object of texts is read: from an object only, exactly when every
/// member is a text, and then the pairs in order.
pub open spec fn text_map_read(j: Json, r: Result<Vec<(String, String)>, BridgeError>) -> bool {
    match j {
        Json::Object(m) => {
            &&& r is Ok <==> (forall|k: int| 0 <= k < m@.len() ==> (#[trigger] m@[k]).1 is Text)
            &&& r matches Ok(p) ==> p@.len() == m@.len() && forall|k: int|
                0 <= k < m@.len() ==> (#[trigger] p@[k]).0 == m@[k].0 && Json::Text(p@[k].1) == m@[k].1
        },
        _ => r matches Err(e) && decode_failure(e, shape_text("an object"@)),
    }
}

/// Reads an object whose members are all texts, such as a health report.
pub fn read_text_map(j: &Json) -> (r: Result<Vec<(String, String)>, BridgeError>)
    ensures
        text_map_read(*j, r),
        r matches Err(e) ==> e is Decode,
{
    let m = match j {
        Json::Object(m) => m,
        _ => return Err(wrong_shape("an object")),
    };
    let mut out: Vec<(String, String)> = Vec::new();
    let mut i: usize = 0;
    while i < m.len()
        invariant
            *j == Json::Object(*m),
            i <= m@.len(),
            out@.len() == i,
            forall|k: int| 0 <= k < i ==> (#[trigger] out@[k]).0 == m@[k].0 && Json::Text(out@[k].1) == m@[k].1,
        decreases m@.len() - i,
    {
        match &m[i].1 {
            Json::Text(t) => out.push((m[i].0.clone(), t.clone())),
            _ => {
                assert(!(m@[i as int].1 is Text));
                return Err(mistyped(m[i].0.as_str()));
            },
        }
        i = i + 1;
    }
    assert forall|k: int| 0 <= k < m@.len() implies (#[trigger] m@[k]).1 is Text by {
        assert(Json::Text(out@[k].1) == m@[k].1);
    }
    Ok(out)
}

/// How an object of arbitrary values is read: from an object only, as its members.
pub open spec fn value_map_read(j: Json, r: Result<Vec<(String, Json)>, BridgeError>) -> bool {
    match j {
        Json::Object(m) => r == Ok::<Vec<(String, Json)>, BridgeError>(m),
        _ => r matches Err(e) && decode_failure(e, shape_text("an object"@)),
    }
}

/// Reads an object as its members, values left as they are.
pub fn read_value_map(j: Json) -> (r: Result<Vec<(String, Json)>, BridgeError>)
    ensures
        value_map_read(j, r),
        r matches Err(e) ==> e is Decode,
{
    match j {
        Json::Object(m) => Ok(m),
        _ => Err(wrong_shape("an object")),
    }
}

/// Takes the client's reply (the body text, or its transport failure) and
/// parses the body as JSON.
pub fn receive(reply: Result<String, String>) -> (r: Result<Json, BridgeError>)
    ensures
        reply matches Err(m) ==> r matches Err(e) && e == BridgeError::Transport(m),
        reply matches Ok(t) ==> (parsed_of(t@) is None ==> (r matches Err(e) && e is Decode)),
        reply matches Ok(t) ==> (parsed_of(t@) matches Some(j) ==> r == Ok::<Json, BridgeError>(j)),
{
    match reply {
        Err(m) => Err(BridgeError::Transport(m)),
        Ok(text) => match parse_json(text.as_str()) {
            Ok(j) => Ok(j),
            Err(m) => Err(BridgeError::Decode(m)),
        },
    }
}

/// How an operation ends, given the client's reply and how its result shape is
/// read from a JSON value: a transport failure is passed on as it came, a body
/// that is not JSON is a decode failure, and a JSON body is read as the shape.
pub open spec fn answered<T>(
    reply: Result<String, String>,
    r: Result<T, BridgeError>,
    read: spec_fn(Json, Result<T, BridgeError>) -> bool,
) -> bool {
    match reply {
        Err(m) => r matches Err(e) && e == BridgeError::Transport(m),
        Ok(t) => match parsed_of(t@) {
            None => r matches Err(e) && e is Decode,
            Some(j) => read(j, r) && (r matches Err(e) ==> e is Decode),
        },
    }
}

/// The outcome of fetching one document.
pub fn document_response(reply: Result<String, String>) -> (r: Result<Document, BridgeError>)
    ensures
        answered(reply, r, |j: Json, r: Result<Document, BridgeError>| document_read(j, r)),
{
    let j = receive(reply)?;
    read_document(&j)
}

/// The outcome of listing documents.
pub fn documents_response(reply: Result<String, String>) -> (r: Result<Vec<Document>, BridgeError>)
    ensures
        answered(reply, r, |j: Json, r: Result<Vec<Document>, BridgeError>| documents_read(j, r)),
{
    let j = receive(reply)?;
    read_documents(&j)
}

/// The outcome of creating or fetching a persona.
pub fn persona_response(reply: Result<String, String>) -> (r: Result<Persona, BridgeError>)
    ensures
        answered(reply, r, |j: Json, r: Result<Persona, BridgeError>| persona_read(j, r)),
{
    let j = receive(reply)?;
    read_persona(&j)
}

/// The outcome of creating or fetching a comment.
pub fn comment_response(reply: Result<String, String>) -> (r: Result<Comment, BridgeError>)
    ensures
        answered(reply, r, |j: Json, r: Result<Comment, BridgeError>| comment_read(j, r)),
{
    let j = receive(reply)?;
    read_comment(&j)
}

/// The outcome of an operation that answers with an object of texts.
pub fn text_map_response(reply: Result<String, String>) -> (r: Result<
    Vec<(String, String)>,
    BridgeError,
>)
    ensures
        answered(
            reply,
            r,
            |j: Json, r: Result<Vec<(String, String)>, BridgeError>| text_map_read(j, r),
        ),
{
    let j = receive(reply)?;
    read_text_map(&j)
}

/// The outcome of an operation that answers with an object of JSON values.
pub fn value_map_response(reply: Result<String, String>) -> (r: Result<
    Vec<(String, Json)>,
    BridgeError,
>)
    ensures
        answered(reply, r, |j: Json, r: Result<Vec<(String, Json)>, BridgeError>| value_map_read(j, r)),
{
    let j = receive(reply)?;
    read_value_map(j)
}

/// When a body arrives but cannot be read as the expected shape, the failure
/// handed to the UI has a non-empty message that differs from the
/// unsupported-method message.
pub proof fn unreadable_body_is_reported<T>(
    reply: Result<String, String>,
    r: Result<T, BridgeError>,
    read: spec_fn(Json, Result<T, BridgeError>) -> bool,
)
    requires
        answered(reply, r, read),
        reply is Ok,
        r is Err,
    ensures
        r->Err_0.spec_message().len() > 0,
        r->Err_0.spec_message() != BridgeError::UnsupportedMethod.spec_message(),
{
    decode_message_is_distinct(r->Err_0);
}

} // verus!
