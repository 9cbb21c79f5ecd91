//! Documents and their pages.
use vstd::prelude::*;

use crate::models::user::User;
use crate::models::workspace::{FolderReference, Space};
use crate::query::{percent_encode, query_string, QueryPair, QueryParams};

verus! {

/// A ClickUp document.
#[derive(Debug)]
pub struct Document {
    pub id: String,
    pub name: String,
    pub created_at: Option<i64>,
    pub updated_at: Option<i64>,
    pub created_by: Option<User>,
    pub updated_by: Option<User>,
    pub space: Option<Space>,
    pub folder: Option<FolderReference>,
    pub url: Option<String>,
    pub pages: Vec<Page>,
}

/// A page of a document; pages nest.
#[derive(Debug)]
pub struct Page {
    pub id: String,
    pub name: String,
    pub content: Option<String>,
    pub content_markdown: Option<String>,
    pub order: Option<u32>,
    pub created_at: Option<i64>,
    pub updated_at: Option<i64>,
    pub children: Vec<Page>,
}

/// Documents found by a search.
#[derive(Debug)]
pub struct DocumentsResponse {
    pub docs: Vec<Document>,
}

/// The pages of a document.
#[derive(Debug)]
pub struct DocumentPagesResponse {
    pub pages: Vec<Page>,
}

/// One page.
#[derive(Debug)]
pub struct PageResponse {
    pub page: Page,
}

/// Parameters of a document search.
#[derive(Debug, Clone)]
pub struct DocumentFilters {
    pub query: Option<String>,
    pub space_id: Option<String>,
    pub folder_id: Option<String>,
}

impl Default for DocumentFilters {
    fn default() -> (f: Self)
        ensures
            f.query is None,
            f.space_id is None,
            f.folder_id is None,
    {
        DocumentFilters { query: None, space_id: None, folder_id: None }
    }
}

/// The query parameters of a document search, in order: the search text
/// percent-encoded, then the space id and the folder id as they are.
pub open spec fn document_filter_params(f: DocumentFilters) -> Seq<QueryPair> {
    let p1: Seq<QueryPair> = match f.query {
        Some(q) => seq![("query"@, percent_encode(vstd::utf8::encode_utf8(q@)))],
        None => Seq::empty(),
    };
    let p2 = match f.space_id {
        Some(s) => p1.push(("space_id"@, s@)),
        None => p1,
    };
    match f.folder_id {
        Some(s) => p2.push(("folder_id"@, s@)),
        None => p2,
    }
}

impl DocumentFilters {
    /// The search parameters as a URL query string (`?k=v&...`, or empty).
    pub fn to_query_string(&self) -> (q: String)
        ensures
            q@ == query_string(document_filter_params(*self)),
    {
        let mut params = QueryParams::new();
        match &self.query {
            Some(q) => params.add_opt_encoded("query", Some(q.as_str())),
            None => params.add_opt_encoded("query", None),
        }
        params.add_opt_str("space_id", &self.space_id);
        params.add_opt_str("folder_id", &self.folder_id);
        params.to_query_string()
    }
}

} // verus!
