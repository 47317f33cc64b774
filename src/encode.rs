//! Request bodies: the JSON texts of the records sent to the backend.
use vstd::prelude::*;
use crate::json::{json_string, json_literal, needs_no_escape, plain_text_literal, value_text, value_text_of};
use crate::model::{Comment, Persona};
use crate::text::{decimal, push_decimal};

verus! {

/// A JSON literal, or `null` where there is none.
pub open spec fn or_null(lit: Option<Seq<char>>) -> Seq<char> {
    match lit {
        Some(l) => l,
        None => "null"@,
    }
}

/// An integer as a JSON number, or `null` where there is none.
pub open spec fn int_or_null(n: Option<i32>) -> Seq<char> {
    match n {
        Some(i) => decimal(i as int),
        None => "null"@,
    }
}

/// JSON texts separated by commas.
pub open spec fn joined(items: Seq<Seq<char>>) -> Seq<char>
    decreases items.len(),
{
    if items.len() == 0 {
        Seq::empty()
    } else if items.len() == 1 {
        items[0]
    } else {
        joined(items.drop_last()) + seq![','] + items.last()
    }
}

/// A JSON array of the given element texts.
pub open spec fn json_array(items: Seq<Seq<char>>) -> Seq<char> {
    seq!['['] + joined(items) + seq![']']
}

/// The views of a vector of strings.
pub open spec fn texts(v: Seq<String>) -> Seq<Seq<char>> {
    v.map_values(|t: String| t@)
}

/// The JSON literal of an optional text.
pub open spec fn opt_literal(o: Option<String>) -> Option<Seq<char>> {
    match o {
        Some(s) => Some(json_literal(s@)),
        None => None,
    }
}

/// The views of an optional string.
pub open spec fn opt_view(o: Option<String>) -> Option<Seq<char>> {
    match o {
        Some(s) => Some(s@),
        None => None,
    }
}

/// A persona object, from the JSON literals of its texts.
pub open spec fn persona_frame(
    id: Option<i32>,
    name: Seq<char>,
    role: Option<Seq<char>>,
    interests: Seq<Seq<char>>,
) -> Seq<char> {
    "{\"id\":"@ + int_or_null(id) + ",\"name\":"@ + name + ",\"role\":"@ + or_null(role)
        + ",\"interests\":"@ + json_array(interests) + "}"@
}

/// The JSON text of a persona, members in declaration order.
pub open spec fn persona_text(p: Persona) -> Seq<char> {
    persona_frame(
        p.id,
        json_literal(p.name@),
        opt_literal(p.role),
        p.interests@.map_values(|t: String| json_literal(t@)),
    )
}

/// A comment object, from the JSON literals of its texts.
pub open spec fn comment_frame(
    id: Option<i32>,
    persona_id: i32,
    document_id: Seq<char>,
    title: Option<Seq<char>>,
    content: Seq<char>,
    status: Seq<char>,
) -> Seq<char> {
    "{\"id\":"@ + int_or_null(id) + ",\"persona_id\":"@ + decimal(persona_id as int)
        + ",\"document_id\":"@ + document_id + ",\"title\":"@ + or_null(title) + ",\"content\":"@
        + content + ",\"status\":"@ + status + "}"@
}

/// The JSON text of a comment, members in declaration order.
pub open spec fn comment_text(c: Comment) -> Seq<char> {
    comment_frame(
        c.id,
        c.persona_id,
        json_literal(c.document_id@),
        opt_literal(c.title),
        json_literal(c.content@),
        json_literal(c.status@),
    )
}

/// The body of a bulk insertion, from the JSON texts of the documents.
pub open spec fn bulk_frame(items: Seq<Seq<char>>) -> Seq<char> {
    "{\"documents\":"@ + json_array(items) + "}"@
}

fn push_int_or_null(out: &mut String, n: Option<i32>)
    ensures
        final(out)@ == old(out)@ + int_or_null(n),
{
    match n {
        Some(i) => push_decimal(out, i),
        None => out.append("null"),
    }
}

fn push_or_null(out: &mut String, lit: &Option<String>)
    ensures
        final(out)@ == old(out)@ + or_null(opt_view(*lit)),
{
    match lit {
        Some(l) => out.append(l.as_str()),
        None => out.append("null"),
    }
}

fn push_array(out: &mut String, items: &Vec<String>)
    ensures
        final(out)@ == old(out)@ + json_array(texts(items@)),
{
    out.push('[');
    let ghost start = out@;
    let mut i: usize = 0;
    while i < items.len()
        invariant
            i <= items@.len(),
            out@ == start + joined(texts(items@).subrange(0, i as int)),
        decreases items@.len() - i,
    {
        let ghost before = out@;
        if i > 0 {
            out.push(',');
        }
        out.append(items[i].as_str());
        proof {
            let next = texts(items@).subrange(0, i + 1);
            assert(next.drop_last() =~= texts(items@).subrange(0, i as int));
            assert(next.last() == items@[i as int]@);
            if i == 0 {
                assert(joined(texts(items@).subrange(0, 0)) =~= Seq::<char>::empty());
            }
            assert(out@ =~= start + joined(next));
        }
        i = i + 1;
    }
    assert(texts(items@).subrange(0, items@.len() as int) =~= texts(items@));
    out.push(']');
    assert(final(out)@ =~= old(out)@ + json_array(texts(items@)));
}

/// Frames a persona object from the JSON literals of its texts.
pub fn frame_persona(
    id: Option<i32>,
    name: &str,
    role: &Option<String>,
    interests: &Vec<String>,
) -> (r: String)
    ensures
        r@ == persona_frame(id, name@, opt_view(*role), texts(interests@)),
{
    let mut out = String::from_str("{\"id\":");
    push_int_or_null(&mut out, id);
    out.append(",\"name\":");
    out.append(name);
    out.append(",\"role\":");
    push_or_null(&mut out, role);
    out.append(",\"interests\":");
    push_array(&mut out, interests);
    out.append("}");
    assert(out@ =~= persona_frame(id, name@, opt_view(*role), texts(interests@)));
    out
}

/// Frames a comment object from the JSON literals of its texts.
pub fn frame_comment(
    id: Option<i32>,
    persona_id: i32,
    document_id: &str,
    title: &Option<String>,
    content: &str,
    status: &str,
) -> (r: String)
    ensures
        r@ == comment_frame(id, persona_id, document_id@, opt_view(*title), content@, status@),
{
    let mut out = String::from_str("{\"id\":");
    push_int_or_null(&mut out, id);
    out.append(",\"persona_id\":");
    push_decimal(&mut out, persona_id);
    out.append(",\"document_id\":");
    out.append(document_id);
    out.append(",\"title\":");
    push_or_null(&mut out, title);
    out.append(",\"content\":");
    out.append(content);
    out.append(",\"status\":");
    out.append(status);
    out.append("}");
    assert(out@ =~= comment_frame(
        id,
        persona_id,
        document_id@,
        opt_view(*title),
        content@,
        status@,
    ));
    out
}

/// Frames the body of a bulk insertion from the JSON texts of the documents.
pub fn frame_bulk(items: &Vec<String>) -> (r: String)
    ensures
        r@ == bulk_frame(texts(items@)),
{
    let mut out = String::from_str("{\"documents\":");
    push_array(&mut out, items);
    out.append("}");
    assert(out@ =~= bulk_frame(texts(items@)));
    out
}

/// The JSON string literal of a text.
fn literal(s: &str) -> (r: String)
    ensures
        r@ == json_literal(s@),
        needs_no_escape(s@) ==> r@ == seq!['"'] + s@ + seq!['"'],
{
    proof {
        if needs_no_escape(s@) {
            plain_text_literal(s@);
        }
    }
    match json_string(s) {
        Ok(t) => t,
        Err(_) => {
            proof {
                assert(false);
            }
            String::new()
        },
    }
}

fn opt_literal_of(o: &Option<String>) -> (r: Option<String>)
    ensures
        opt_view(r) == opt_literal(*o),
{
    match o {
        Some(s) => Some(literal(s.as_str())),
        None => None,
    }
}

fn literals(items: &Vec<String>) -> (r: Vec<String>)
    ensures
        texts(r@) == items@.map_values(|t: String| json_literal(t@)),
{
    let mut r: Vec<String> = Vec::new();
    let mut i: usize = 0;
    while i < items.len()
        invariant
            i <= items@.len(),
            r@.len() == i,
            texts(r@) =~= items@.subrange(0, i as int).map_values(|t: String| json_literal(t@)),
        decreases items@.len() - i,
    {
        let lit = literal(items[i].as_str());
        let ghost prev = r@;
        r.push(lit);
        proof {
            let want = items@.subrange(0, i + 1).map_values(|t: String| json_literal(t@));
            assert forall|j: int| 0 <= j < i + 1 implies texts(r@)[j] == want[j] by {
                if j < i {
                    assert(r@[j] == prev[j]);
                    assert(texts(prev)[j] == items@.subrange(0, i as int).map_values(
                        |t: String| json_literal(t@),
                    )[j]);
                }
            }
            assert(texts(r@) =~= want);
        }
        i = i + 1;
    }
    assert(items@.subrange(0, items@.len() as int) =~= items@);
    r
}

/// The request body that stores a persona.
pub fn encode_persona(p: &Persona) -> (r: String)
    ensures
        r@ == persona_text(*p),
{
    let name = literal(p.name.as_str());
    let role = opt_literal_of(&p.role);
    let interests = literals(&p.interests);
    frame_persona(p.id, name.as_str(), &role, &interests)
}

/// The request body that stores a comment.
pub fn encode_comment(c: &Comment) -> (r: String)
    ensures
        r@ == comment_text(*c),
        needs_no_escape(c.status@) ==> r@ == comment_frame(
            c.id,
            c.persona_id,
            json_literal(c.document_id@),
            opt_literal(c.title),
            json_literal(c.content@),
            seq!['"'] + c.status@ + seq!['"'],
        ),
{
    let document_id = literal(c.document_id.as_str());
    let title = opt_literal_of(&c.title);
    let content = literal(c.content.as_str());
    let status = literal(c.status.as_str());
    frame_comment(
        c.id,
        c.persona_id,
        document_id.as_str(),
        &title,
        content.as_str(),
        status.as_str(),
    )
}

/// The request body of a bulk insertion: the documents' own JSON texts, in
/// order, framed as the `documents` array of one object.
pub fn encode_bulk(documents: &Vec<serde_json::Value>) -> (r: String)
    ensures
        r@ == bulk_frame(documents@.map_values(|v: serde_json::Value| value_text_of(v))),
{
    let mut items: Vec<String> = Vec::new();
    let mut i: usize = 0;
    while i < documents.len()
        invariant
            i <= documents@.len(),
            items@.len() == i,
            forall|k: int| 0 <= k < i ==> (#[trigger] items@[k])@ == value_text_of(documents@[k]),
        decreases documents@.len() - i,
    {
        match value_text(&documents[i]) {
            Ok(t) => items.push(t),
            Err(_) => {
                proof {
                    assert(false);
                }
            },
        }
        i = i + 1;
    }
    assert(texts(items@) =~= documents@.map_values(|v: serde_json::Value| value_text_of(v)));
    frame_bulk(&items)
}

} // verus!
