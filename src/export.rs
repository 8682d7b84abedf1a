//! A collection tree in the Postman v2.1 export shape.

use vstd::prelude::*;

use crate::records::{CollectionTree, CollectionTreeNode};
use crate::request::{duplicate_text, ApiRequest, BodyType, KeyValue};
use crate::text::text_of;

verus! {

broadcast use vstd::std_specs::vec::group_vec_axioms;

/// The schema an exported collection declares (Postman v2.1).
pub const POSTMAN_SCHEMA: &'static str = "https://schema.getpostman.com/json/collection/v2.1.0/collection.json";

/// An exported header or query parameter.
#[derive(Debug, Clone)]
pub struct ExportPair {
    pub key: String,
    pub value: String,
    pub disabled: bool,
}

/// An exported body: its mode, raw text and, for raw bodies, the language.
#[derive(Debug, Clone)]
pub struct ExportBody {
    pub mode: String,
    pub raw: Option<String>,
    pub language: Option<String>,
}

/// An exported folder with its items, or an exported request.
#[derive(Debug)]
pub enum ExportItem {
    Folder { name: String, item: Vec<ExportItem> },
    Request {
        name: String,
        method: String,
        url: String,
        query: Vec<ExportPair>,
        header: Vec<ExportPair>,
        body: Option<ExportBody>,
    },
}

/// A collection in the export format: its name, schema and items.
#[derive(Debug)]
pub struct CollectionExport {
    pub name: String,
    pub schema: String,
    pub item: Vec<ExportItem>,
}

pub open spec fn pair_exported(e: ExportPair, kv: KeyValue) -> bool {
    &&& e.key == kv.key
    &&& e.value == kv.value
    &&& e.disabled == !kv.enabled
}

pub open spec fn pairs_exported(es: Seq<ExportPair>, kvs: Seq<KeyValue>) -> bool {
    &&& es.len() == kvs.len()
    &&& forall|i: int| 0 <= i < es.len() ==> pair_exported(#[trigger] es[i], kvs[i])
}

/// The mode and language a body type is exported with.
pub open spec fn mode_and_language(bt: BodyType) -> (Seq<char>, Option<Seq<char>>) {
    match bt {
        BodyType::Json => ("raw"@, Some("json"@)),
        BodyType::Text => ("raw"@, Some("text"@)),
        BodyType::FormUrlEncoded => ("urlencoded"@, None),
        _ => ("none"@, None),
    }
}

/// No body is exported without a body type; otherwise the content goes out
/// raw with the type's mode and language.
pub open spec fn body_exported(b: Option<ExportBody>, bt: BodyType, content: Option<String>) -> bool {
    match bt {
        BodyType::NoBody => b is None,
        _ => match b {
            Some(x) => x.raw == content && (x.mode@, text_of(x.language)) == mode_and_language(bt),
            None => false,
        },
    }
}

pub open spec fn request_exported(e: ExportItem, r: ApiRequest) -> bool {
    match e {
        ExportItem::Request { name, method, url, query, header, body } => {
            &&& name == r.name
            &&& method@ == r.method.name()
            &&& url == r.url
            &&& pairs_exported(query@, r.query_params@)
            &&& pairs_exported(header@, r.headers@)
            &&& body_exported(body, r.body_type, r.body_content)
        },
        _ => false,
    }
}

/// Exported items: the folders first, each with its own items, then the
/// requests, all in order.
pub open spec fn items_exported(
    items: Seq<ExportItem>,
    folders: Seq<CollectionTreeNode>,
    requests: Seq<ApiRequest>,
) -> bool
    decreases folders,
{
    &&& items.len() == folders.len() + requests.len()
    &&& forall|i: int|
        0 <= i < folders.len() ==> match items[i] {
            ExportItem::Folder { name, item } => {
                &&& name == (#[trigger] folders[i]).folder.name
                &&& items_exported(item@, folders[i].children@, folders[i].requests@)
            },
            _ => false,
        }
    &&& forall|j: int|
        0 <= j < requests.len() ==> request_exported(items[folders.len() + j], #[trigger] requests[j])
}

fn export_pairs(kvs: &Vec<KeyValue>) -> (r: Vec<ExportPair>)
    ensures
        pairs_exported(r@, kvs@),
{
    let mut out: Vec<ExportPair> = Vec::new();
    let mut i: usize = 0;
    while i < kvs.len()
        invariant
            i <= kvs@.len(),
            out@.len() == i,
            forall|j: int| 0 <= j < i ==> pair_exported(#[trigger] out@[j], kvs@[j]),
        decreases kvs@.len() - i,
    {
        let kv = &kvs[i];
        out.push(ExportPair { key: kv.key.clone(), value: kv.value.clone(), disabled: !kv.enabled });
        i = i + 1;
    }
    out
}

fn export_body(bt: BodyType, content: &Option<String>) -> (r: Option<ExportBody>)
    ensures
        body_exported(r, bt, *content),
{
    let (mode, language) = match bt {
        BodyType::NoBody => return None,
        BodyType::Json => ("raw", Some("json".to_owned())),
        BodyType::Text => ("raw", Some("text".to_owned())),
        BodyType::FormUrlEncoded => ("urlencoded", None),
        _ => ("none", None),
    };
    Some(ExportBody { mode: mode.to_owned(), raw: duplicate_text(content), language })
}

/// A request in the export format: method token, URL, query and headers
/// (with `disabled` for what is not enabled) and the body.
pub fn export_request(r: &ApiRequest) -> (e: ExportItem)
    ensures
        request_exported(e, *r),
{
    ExportItem::Request {
        name: r.name.clone(),
        method: r.method.as_str().to_owned(),
        url: r.url.clone(),
        query: export_pairs(&r.query_params),
        header: export_pairs(&r.headers),
        body: export_body(r.body_type, &r.body_content),
    }
}

/// The exported items of a level of the tree: each folder with its own
/// items, then each request.
pub fn export_items(folders: &Vec<CollectionTreeNode>, requests: &Vec<ApiRequest>) -> (r: Vec<ExportItem>)
    ensures
        items_exported(r@, folders@, requests@),
    decreases folders,
{
    let mut out: Vec<ExportItem> = Vec::new();
    let mut i: usize = 0;
    while i < folders.len()
        invariant
            i <= folders@.len(),
            out@.len() == i,
            forall|k: int|
                0 <= k < i ==> match out@[k] {
                    ExportItem::Folder { name, item } => {
                        &&& name == (#[trigger] folders@[k]).folder.name
                        &&& items_exported(item@, folders@[k].children@, folders@[k].requests@)
                    },
                    _ => false,
                },
        decreases folders@.len() - i,
    {
        let f = &folders[i];
        let item = export_items(&f.children, &f.requests);
        out.push(ExportItem::Folder { name: f.folder.name.clone(), item });
        i = i + 1;
    }
    let mut j: usize = 0;
    while j < requests.len()
        invariant
            j <= requests@.len(),
            out@.len() == folders@.len() + j,
            forall|k: int|
                0 <= k < folders@.len() ==> match out@[k] {
                    ExportItem::Folder { name, item } => {
                        &&& name == (#[trigger] folders@[k]).folder.name
                        &&& items_exported(item@, folders@[k].children@, folders@[k].requests@)
                    },
                    _ => false,
                },
            forall|k: int| 0 <= k < j ==> request_exported(out@[folders@.len() + k], #[trigger] requests@[k]),
        decreases requests@.len() - j,
    {
        out.push(export_request(&requests[j]));
        j = j + 1;
    }
    out
}

/// A collection tree in the export format.
pub fn export_collection(tree: &CollectionTree) -> (e: CollectionExport)
    ensures
        e.name == tree.collection.name,
        e.schema@ == POSTMAN_SCHEMA@,
        items_exported(e.item@, tree.root_folders@, tree.root_requests@),
{
    CollectionExport {
        name: tree.collection.name.clone(),
        schema: POSTMAN_SCHEMA.to_owned(),
        item: export_items(&tree.root_folders, &tree.root_requests),
    }
}

} // verus!
