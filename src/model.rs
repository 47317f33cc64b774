//! The records exchanged with the backend.
use vstd::prelude::*;

verus! {

/// Someone on whose behalf comments are written.
#[derive(Debug, Clone)]
pub struct Persona {
    /// Assigned by the backend; absent until the persona is stored.
    pub id: Option<i32>,
    pub name: String,
    pub role: Option<String>,
    pub interests: Vec<String>,
}

/// A regulatory document open for comment.
#[derive(Debug, Clone)]
pub struct Document {
    pub id: i32,
    pub document_id: String,
    pub title: String,
    pub content: String,
    pub agency_id: String,
    pub document_type: Option<String>,
    pub web_comment_link: Option<String>,
    pub web_document_link: Option<String>,
    pub posted_date: Option<String>,
}

/// A comment a persona writes on a document.
#[derive(Debug, Clone)]
pub struct Comment {
    /// Assigned by the backend; absent until the comment is stored.
    pub id: Option<i32>,
    pub persona_id: i32,
    pub document_id: String,
    pub title: Option<String>,
    pub content: String,
    pub status: String,
}

/// The status every comment is created with.
pub open spec fn draft_status() -> Seq<char> {
    "draft"@
}

impl Persona {
    /// A persona about to be created: it has no identifier yet.
    pub fn for_creation(name: String, role: Option<String>, interests: Vec<String>) -> (p: Persona)
        ensures
            p.id is None,
            p.name == name,
            p.role == role,
            p.interests == interests,
    {
        Persona { id: None, name, role, interests }
    }
}

impl Comment {
    /// A comment about to be created: no identifier yet, and in draft.
    pub fn for_creation(
        persona_id: i32,
        document_id: String,
        title: Option<String>,
        content: String,
    ) -> (c: Comment)
        ensures
            c.id is None,
            c.persona_id == persona_id,
            c.document_id == document_id,
            c.title == title,
            c.content == content,
            c.status@ == draft_status(),
    {
        Comment {
            id: None,
            persona_id,
            document_id,
            title,
            content,
            status: String::from_str("draft"),
        }
    }
}

} // verus!
