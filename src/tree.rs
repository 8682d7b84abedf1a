//! Assembling a collection's folder tree from its flat folder and request lists.

use vstd::prelude::*;

use crate::records::{Collection, CollectionTree, CollectionTreeNode, Folder};
use crate::request::ApiRequest;
use crate::text::{same_text, text_of};

verus! {

/// The folders whose parent is `parent` (`None`: the top level), in order.
pub open spec fn folders_under(folders: Seq<Folder>, parent: Option<Seq<char>>) -> Seq<Folder>
    decreases folders.len(),
{
    if folders.len() == 0 {
        Seq::empty()
    } else {
        let before = folders_under(folders.drop_last(), parent);
        if text_of(folders.last().parent_folder_id) == parent {
            before.push(folders.last())
        } else {
            before
        }
    }
}

/// The requests filed in `folder` (`None`: at the top level), in order.
pub open spec fn requests_in(requests: Seq<ApiRequest>, folder: Option<Seq<char>>) -> Seq<ApiRequest>
    decreases requests.len(),
{
    if requests.len() == 0 {
        Seq::empty()
    } else {
        let before = requests_in(requests.drop_last(), folder);
        if text_of(requests.last().folder_id) == folder {
            before.push(requests.last())
        } else {
            before
        }
    }
}

/// Request lists that hold the same requests in the same order.
pub open spec fn same_requests(a: Seq<ApiRequest>, b: Seq<ApiRequest>) -> bool {
    &&& a.len() == b.len()
    &&& forall|i: int| 0 <= i < a.len() ==> #[trigger] a[i].same_as(b[i])
}

/// The nodes under `parent`: one per folder under it, in order, each holding
/// that folder, the requests filed in it and, recursively, its sub-folders;
/// nothing once `depth` levels are used up.
pub open spec fn forest_matches(
    nodes: Seq<CollectionTreeNode>,
    folders: Seq<Folder>,
    requests: Seq<ApiRequest>,
    parent: Option<Seq<char>>,
    depth: nat,
) -> bool
    decreases depth,
{
    if depth == 0 {
        nodes.len() == 0
    } else {
        let under = folders_under(folders, parent);
        &&& nodes.len() == under.len()
        &&& forall|i: int|
            0 <= i < nodes.len() ==> {
                &&& (#[trigger] nodes[i]).folder == under[i]
                &&& same_requests(nodes[i].requests@, requests_in(requests, Some(under[i].id@)))
                &&& forest_matches(nodes[i].children@, folders, requests, Some(under[i].id@), (depth - 1) as nat)
            }
    }
}

/// A node for folder `f`: the folder itself, the requests filed in it, and
/// its sub-folders as nodes.
pub open spec fn node_matches(
    n: CollectionTreeNode,
    f: Folder,
    folders: Seq<Folder>,
    requests: Seq<ApiRequest>,
    depth: nat,
) -> bool {
    &&& n.folder == f
    &&& same_requests(n.requests@, requests_in(requests, Some(f.id@)))
    &&& forest_matches(n.children@, folders, requests, Some(f.id@), depth)
}

/// Nodes that each match their folder form the forest under `parent`.
proof fn forest_from_nodes(
    nodes: Seq<CollectionTreeNode>,
    folders: Seq<Folder>,
    requests: Seq<ApiRequest>,
    parent: Option<Seq<char>>,
    depth: nat,
)
    requires
        depth > 0,
        nodes.len() == folders_under(folders, parent).len(),
        forall|j: int|
            0 <= j < nodes.len() ==> #[trigger] node_matches(
                nodes[j],
                folders_under(folders, parent)[j],
                folders,
                requests,
                (depth - 1) as nat,
            ),
    ensures
        forest_matches(nodes, folders, requests, parent, depth),
{
    let under = folders_under(folders, parent);
    assert forall|i: int| 0 <= i < nodes.len() implies {
        &&& (#[trigger] nodes[i]).folder == under[i]
        &&& same_requests(nodes[i].requests@, requests_in(requests, Some(under[i].id@)))
        &&& forest_matches(nodes[i].children@, folders, requests, Some(under[i].id@), (depth - 1) as nat)
    } by {
        assert(node_matches(nodes[i], under[i], folders, requests, (depth - 1) as nat));
    }
}

fn same_optional_text(a: &Option<String>, b: &Option<String>) -> (r: bool)
    ensures
        r == (text_of(*a) == text_of(*b)),
{
    match (a, b) {
        (Some(x), Some(y)) => same_text(x.as_str(), y.as_str()),
        (None, None) => true,
        _ => false,
    }
}

/// Copies of the requests filed in `folder`, in order.
pub fn requests_filed_in(requests: &Vec<ApiRequest>, folder: &Option<String>) -> (r: Vec<ApiRequest>)
    ensures
        same_requests(r@, requests_in(requests@, text_of(*folder))),
{
    let mut out: Vec<ApiRequest> = Vec::new();
    let mut i: usize = 0;
    while i < requests.len()
        invariant
            i <= requests@.len(),
            same_requests(out@, requests_in(requests@.subrange(0, i as int), text_of(*folder))),
        decreases requests@.len() - i,
    {
        proof {
            assert(requests@.subrange(0, i + 1).drop_last() == requests@.subrange(0, i as int));
        }
        let r = &requests[i];
        if same_optional_text(&r.folder_id, folder) {
            out.push(r.duplicate());
        }
        i = i + 1;
    }
    proof {
        assert(requests@.subrange(0, requests@.len() as int) == requests@);
    }
    out
}

/// The nodes of the folders under `parent`, each with its requests and,
/// recursively, its sub-folders, down to `depth` levels.
pub fn build_folder_tree(
    parent: &Option<String>,
    folders: &Vec<Folder>,
    requests: &Vec<ApiRequest>,
    depth: usize,
) -> (r: Vec<CollectionTreeNode>)
    ensures
        forest_matches(r@, folders@, requests@, text_of(*parent), depth as nat),
    decreases depth,
{
    let mut out: Vec<CollectionTreeNode> = Vec::new();
    if depth == 0 {
        return out;
    }
    let mut i: usize = 0;
    while i < folders.len()
        invariant
            0 < depth,
            i <= folders@.len(),
            out@.len() == folders_under(folders@.subrange(0, i as int), text_of(*parent)).len(),
            forall|j: int|
                0 <= j < out@.len() ==> #[trigger] node_matches(
                    out@[j],
                    folders_under(folders@.subrange(0, i as int), text_of(*parent))[j],
                    folders@,
                    requests@,
                    (depth - 1) as nat,
                ),
        decreases folders@.len() - i,
    {
        proof {
            assert(folders@.subrange(0, i + 1).drop_last() == folders@.subrange(0, i as int));
        }
        let f = &folders[i];
        if same_optional_text(&f.parent_folder_id, parent) {
            let id = Some(f.id.clone());
            let children = build_folder_tree(&id, folders, requests, depth - 1);
            let filed = requests_filed_in(requests, &id);
            let node = CollectionTreeNode { folder: f.duplicate(), children, requests: filed };
            out.push(node);
            proof {
                let under = folders_under(folders@.subrange(0, i + 1), text_of(*parent));
                assert(under.last() == *f);
                assert(node_matches(out@.last(), under.last(), folders@, requests@, (depth - 1) as nat));
            }
        }
        i = i + 1;
    }
    proof {
        assert(folders@.subrange(0, folders@.len() as int) == folders@);
        forest_from_nodes(out@, folders@, requests@, text_of(*parent), depth as nat);
    }
    out
}

/// A collection's tree from its folders and requests: the top-level folders
/// with everything under them, and the requests filed in no folder. Folder
/// nesting is followed as deep as there are folders.
pub fn assemble_collection_tree(
    collection: Collection,
    folders: &Vec<Folder>,
    requests: &Vec<ApiRequest>,
) -> (t: CollectionTree)
    ensures
        t.collection == collection,
        forest_matches(t.root_folders@, folders@, requests@, None, folders@.len() as nat),
        same_requests(t.root_requests@, requests_in(requests@, None)),
{
    let root_folders = build_folder_tree(&None, folders, requests, folders.len());
    let root_requests = requests_filed_in(requests, &None);
    CollectionTree { collection, root_folders, root_requests }
}

} // verus!
