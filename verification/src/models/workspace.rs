//! Workspaces, spaces, folders and lists.
use vstd::prelude::*;

use crate::models::task::Priority;

verus! {

/// A ClickUp workspace (a "team" in the API).
#[derive(Debug, Clone)]
pub struct Workspace {
    pub id: String,
    pub name: String,
    pub color: Option<String>,
    pub avatar: Option<Avatar>,
    pub member_count: Option<u32>,
}

/// A space within a workspace.
#[derive(Debug, Clone)]
pub struct Space {
    pub id: String,
    pub name: String,
    pub color: Option<String>,
    pub private: bool,
    pub status: Option<SpaceStatus>,
    pub folders: Vec<Folder>,
    pub lists: Vec<List>,
}

/// The status of a space.
#[derive(Debug, Clone)]
pub struct SpaceStatus {
    pub status: String,
    pub color: Option<String>,
    pub type_field: Option<String>,
}

/// A folder within a space.
#[derive(Debug, Clone)]
pub struct Folder {
    pub id: String,
    pub name: String,
    pub color: Option<String>,
    pub private: bool,
    pub space: Option<SpaceReference>,
    pub lists: Vec<List>,
}

/// A reference to a space.
#[derive(Debug, Clone)]
pub struct SpaceReference {
    pub id: String,
    pub name: String,
}

/// A list within a folder or a space.
#[derive(Debug, Clone)]
pub struct List {
    pub id: String,
    pub name: String,
    pub content: Option<String>,
    pub description: Option<String>,
    pub archived: bool,
    pub hidden: bool,
    pub orderindex: Option<u32>,
    pub space: Option<SpaceReference>,
    pub folder: Option<FolderReference>,
    pub status: Option<ListStatus>,
    pub priority: Option<Priority>,
}

/// A reference to a folder.
#[derive(Debug, Clone)]
pub struct FolderReference {
    pub id: String,
    pub name: Option<String>,
}

/// The status of a list.
#[derive(Debug, Clone)]
pub struct ListStatus {
    pub status: String,
    pub color: Option<String>,
    pub type_field: Option<String>,
}

/// An avatar image.
#[derive(Debug, Clone)]
pub struct Avatar {
    pub attachment_id: Option<String>,
    pub color: Option<String>,
}

/// The workspaces of the user.
#[derive(Debug, Clone)]
pub struct WorkspacesResponse {
    pub teams: Vec<Workspace>,
}

/// The spaces of a workspace.
#[derive(Debug, Clone)]
pub struct SpacesResponse {
    pub spaces: Vec<Space>,
}

/// The folders of a space.
#[derive(Debug, Clone)]
pub struct FoldersResponse {
    pub folders: Vec<Folder>,
}

/// The lists of a folder or a space.
#[derive(Debug, Clone)]
pub struct ListsResponse {
    pub lists: Vec<List>,
}

} // verus!
