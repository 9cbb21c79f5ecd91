//! URLs of the ClickUp API v2 endpoints.
use vstd::prelude::*;

use crate::text::{owned, push_str};

verus! {

/// Base URL of ClickUp API v2.
pub const BASE_URL: &'static str = "https://api.clickup.com/api/v2";

/// Builders for the endpoint URLs.
pub struct ApiEndpoints;

impl ApiEndpoints {
    /// Workspace (team) list.
    pub fn teams() -> (url: String)
        ensures
            url@ == BASE_URL@ + "/team"@,
    {
        let mut url = owned(BASE_URL);
        push_str(&mut url, "/team");
        url
    }

    /// Spaces of a team.
    pub fn spaces(team_id: &str) -> (url: String)
        ensures
            url@ == BASE_URL@ + "/team/"@ + team_id@ + "/space"@,
    {
        let mut url = owned(BASE_URL);
        push_str(&mut url, "/team/");
        push_str(&mut url, team_id);
        push_str(&mut url, "/space");
        url
    }

    /// One space.
    pub fn space(space_id: &str) -> (url: String)
        ensures
            url@ == BASE_URL@ + "/space/"@ + space_id@,
    {
        let mut url = owned(BASE_URL);
        push_str(&mut url, "/space/");
        push_str(&mut url, space_id);
        url
    }

    /// Folders of a space.
    pub fn folders(space_id: &str) -> (url: String)
        ensures
            url@ == BASE_URL@ + "/space/"@ + space_id@ + "/folder"@,
    {
        let mut url = owned(BASE_URL);
        push_str(&mut url, "/space/");
        push_str(&mut url, space_id);
        push_str(&mut url, "/folder");
        url
    }

    /// One folder.
    pub fn folder(folder_id: &str) -> (url: String)
        ensures
            url@ == BASE_URL@ + "/folder/"@ + folder_id@,
    {
        let mut url = owned(BASE_URL);
        push_str(&mut url, "/folder/");
        push_str(&mut url, folder_id);
        url
    }

    /// Lists of a folder.
    pub fn lists_in_folder(folder_id: &str) -> (url: String)
        ensures
            url@ == BASE_URL@ + "/folder/"@ + folder_id@ + "/list"@,
    {
        let mut url = owned(BASE_URL);
        push_str(&mut url, "/folder/");
        push_str(&mut url, folder_id);
        push_str(&mut url, "/list");
        url
    }

    /// Folderless lists of a space.
    pub fn lists_in_space(space_id: &str) -> (url: String)
        ensures
            url@ == BASE_URL@ + "/space/"@ + space_id@ + "/list"@,
    {
        let mut url = owned(BASE_URL);
        push_str(&mut url, "/space/");
        push_str(&mut url, space_id);
        push_str(&mut url, "/list");
        url
    }

    /// One list.
    pub fn list(list_id: &str) -> (url: String)
        ensures
            url@ == BASE_URL@ + "/list/"@ + list_id@,
    {
        let mut url = owned(BASE_URL);
        push_str(&mut url, "/list/");
        push_str(&mut url, list_id);
        url
    }

    /// Tasks of a list, with a query string.
    pub fn tasks_in_list(list_id: &str, query: &str) -> (url: String)
        ensures
            url@ == BASE_URL@ + "/list/"@ + list_id@ + "/task"@ + query@,
    {
        let mut url = owned(BASE_URL);
        push_str(&mut url, "/list/");
        push_str(&mut url, list_id);
        push_str(&mut url, "/task");
        push_str(&mut url, query);
        url
    }

    /// One task.
    pub fn task(task_id: &str) -> (url: String)
        ensures
            url@ == BASE_URL@ + "/task/"@ + task_id@,
    {
        let mut url = owned(BASE_URL);
        push_str(&mut url, "/task/");
        push_str(&mut url, task_id);
        url
    }

    /// Tasks of a team, with a query string.
    pub fn tasks_in_team(team_id: &str, query: &str) -> (url: String)
        ensures
            url@ == BASE_URL@ + "/team/"@ + team_id@ + "/task"@ + query@,
    {
        let mut url = owned(BASE_URL);
        push_str(&mut url, "/team/");
        push_str(&mut url, team_id);
        push_str(&mut url, "/task");
        push_str(&mut url, query);
        url
    }

    /// Document search, with a query string.
    pub fn docs(query: &str) -> (url: String)
        ensures
            url@ == BASE_URL@ + "/docs"@ + query@,
    {
        let mut url = owned(BASE_URL);
        push_str(&mut url, "/docs");
        push_str(&mut url, query);
        url
    }

    /// Pages of a document.
    pub fn doc_pages(doc_id: &str) -> (url: String)
        ensures
            url@ == BASE_URL@ + "/doc/"@ + doc_id@ + "/pages"@,
    {
        let mut url = owned(BASE_URL);
        push_str(&mut url, "/doc/");
        push_str(&mut url, doc_id);
        push_str(&mut url, "/pages");
        url
    }

    /// One page.
    pub fn page(page_id: &str) -> (url: String)
        ensures
            url@ == BASE_URL@ + "/page/"@ + page_id@,
    {
        let mut url = owned(BASE_URL);
        push_str(&mut url, "/page/");
        push_str(&mut url, page_id);
        url
    }


    /// The signed-in user.
    pub fn user() -> (url: String)
        ensures
            url@ == BASE_URL@ + "/user"@,
    {
        let mut url = owned(BASE_URL);
        push_str(&mut url, "/user");
        url
    }

    /// Comments of a task (read and post).
    pub fn task_comments(task_id: &str) -> (url: String)
        ensures
            url@ == BASE_URL@ + "/task/"@ + task_id@ + "/comment"@,
    {
        let mut url = owned(BASE_URL);
        push_str(&mut url, "/task/");
        push_str(&mut url, task_id);
        push_str(&mut url, "/comment");
        url
    }

    /// Replies to a comment (read and post).
    pub fn comment_replies(comment_id: &str) -> (url: String)
        ensures
            url@ == BASE_URL@ + "/comment/"@ + comment_id@ + "/reply"@,
    {
        let mut url = owned(BASE_URL);
        push_str(&mut url, "/comment/");
        push_str(&mut url, comment_id);
        push_str(&mut url, "/reply");
        url
    }

    /// One comment (update).
    pub fn comment(comment_id: &str) -> (url: String)
        ensures
            url@ == BASE_URL@ + "/comment/"@ + comment_id@,
    {
        let mut url = owned(BASE_URL);
        push_str(&mut url, "/comment/");
        push_str(&mut url, comment_id);
        url
    }

    /// Members of a list.
    pub fn list_members(list_id: &str) -> (url: String)
        ensures
            url@ == BASE_URL@ + "/list/"@ + list_id@ + "/member"@,
    {
        let mut url = owned(BASE_URL);
        push_str(&mut url, "/list/");
        push_str(&mut url, list_id);
        push_str(&mut url, "/member");
        url
    }

}

} // verus!
