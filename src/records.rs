//! Stored records: collections, folders, environments, history, workspaces.

use vstd::prelude::*;

use crate::request::ApiRequest;

verus! {

/// A named group of requests inside a workspace.
#[derive(Debug, Clone)]
pub struct Collection {
    pub id: String,
    pub workspace_id: String,
    pub name: String,
    pub description: Option<String>,
    pub created_at: String,
    pub updated_at: String,
}

/// A folder of a collection; `parent_folder_id` is `None` at the top level.
#[derive(Debug, Clone)]
pub struct Folder {
    pub id: String,
    pub collection_id: String,
    pub parent_folder_id: Option<String>,
    pub name: String,
    pub sort_order: i32,
    pub created_at: String,
    pub updated_at: String,
}

impl Folder {
    /// A copy equal to this folder.
    pub fn duplicate(&self) -> (r: Folder)
        ensures
            r == *self,
    {
        Folder {
            id: self.id.clone(),
            collection_id: self.collection_id.clone(),
            parent_folder_id: match &self.parent_folder_id {
                Some(p) => Some(p.clone()),
                None => None,
            },
            name: self.name.clone(),
            sort_order: self.sort_order,
            created_at: self.created_at.clone(),
            updated_at: self.updated_at.clone(),
        }
    }
}

/// A folder with its sub-folders and its requests.
#[derive(Debug)]
pub struct CollectionTreeNode {
    pub folder: Folder,
    pub children: Vec<CollectionTreeNode>,
    pub requests: Vec<ApiRequest>,
}

/// A collection with its top-level folders and top-level requests.
#[derive(Debug)]
pub struct CollectionTree {
    pub collection: Collection,
    pub root_folders: Vec<CollectionTreeNode>,
    pub root_requests: Vec<ApiRequest>,
}

#[derive(Debug, Clone)]
pub struct CreateCollectionInput {
    pub workspace_id: String,
    pub name: String,
    pub description: Option<String>,
}

#[derive(Debug, Clone)]
pub struct CreateFolderInput {
    pub collection_id: String,
    pub parent_folder_id: Option<String>,
    pub name: String,
}

#[derive(Debug, Clone)]
pub struct RenameInput {
    pub id: String,
    pub name: String,
}

/// A variable of an environment; secret values are stored encrypted.
#[derive(Debug, Clone)]
pub struct Variable {
    pub id: String,
    pub environment_id: String,
    pub key: String,
    pub value: String,
    pub is_secret: bool,
    pub enabled: bool,
    pub sort_order: i32,
    pub created_at: String,
    pub updated_at: String,
}

/// A named set of variables; at most one per workspace is active.
#[derive(Debug, Clone)]
pub struct Environment {
    pub id: String,
    pub workspace_id: String,
    pub name: String,
    pub is_active: bool,
    pub variables: Vec<Variable>,
    pub created_at: String,
    pub updated_at: String,
}

#[derive(Debug, Clone)]
pub struct CreateEnvironmentInput {
    pub workspace_id: String,
    pub name: String,
}

#[derive(Debug, Clone)]
pub struct UpdateEnvironmentInput {
    pub id: String,
    pub name: Option<String>,
    pub variables: Option<Vec<Variable>>,
}

/// One executed request as kept in the history.
#[derive(Debug, Clone)]
pub struct HistoryEntry {
    pub id: String,
    pub request_id: Option<String>,
    pub workspace_id: String,
    pub method: String,
    pub url: String,
    pub request_snapshot: String,
    pub response_status: Option<i32>,
    pub response_headers: Option<String>,
    pub response_body: Option<String>,
    pub response_size: Option<i64>,
    pub duration_ms: Option<i64>,
    pub error: Option<String>,
    pub executed_at: String,
}

#[derive(Debug, Clone)]
pub struct HistoryQuery {
    pub workspace_id: String,
    pub limit: Option<i64>,
    pub offset: Option<i64>,
}

#[derive(Debug, Clone)]
pub struct Workspace {
    pub id: String,
    pub name: String,
    pub created_at: String,
    pub updated_at: String,
}

} // verus!
