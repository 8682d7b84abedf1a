use steq::export::{export_collection, ExportItem, POSTMAN_SCHEMA};
use steq::import::{import_body_type, import_request, plan_import, ImportStep};
use steq::postman::{
    PostmanBody, PostmanBodyOptions, PostmanHeader, PostmanItem, PostmanQueryParam, PostmanRawOptions,
    PostmanRequest, PostmanUrl,
};
use steq::records::{Collection, Folder, Variable};
use steq::request::{ApiRequest, AuthConfig, AuthType, BodyType, HttpMethod, KeyValue, UpdateRequestInput};
use steq::tree::assemble_collection_tree;
use steq::updates::{apply_request_update, plan_variable_sync, resolved_value, shown_value};

fn request(name: &str, url: &str) -> PostmanItem {
    PostmanItem::Request {
        name: name.to_string(),
        request: PostmanRequest {
            method: Some("post".to_string()),
            url: PostmanUrl::Simple(url.to_string()),
            header: vec![],
            body: None,
        },
    }
}

#[test]
fn import_plan_nested_folders() {
    let items = vec![
        PostmanItem::Folder {
            name: "Auth".into(),
            item: vec![PostmanItem::Folder { name: "OAuth".into(), item: vec![request("Token", "https://t")] }, request("Login", "https://l")],
        },
        request("Health", "https://h"),
    ];
    let steps = plan_import(&items);
    assert_eq!(steps.len(), 5);
    match &steps[0] {
        ImportStep::Folder { name, parent } => assert_eq!((name.as_str(), *parent), ("Auth", None)),
        _ => panic!("folder expected"),
    }
    match &steps[1] {
        ImportStep::Folder { name, parent } => assert_eq!((name.as_str(), *parent), ("OAuth", Some(0))),
        _ => panic!("folder expected"),
    }
    match &steps[2] {
        ImportStep::Request { draft, folder } => {
            assert_eq!((draft.name.as_str(), *folder), ("Token", Some(1)));
            assert_eq!(draft.method, HttpMethod::POST);
        },
        _ => panic!("request expected"),
    }
    match &steps[3] {
        ImportStep::Request { draft, folder } => assert_eq!((draft.name.as_str(), *folder), ("Login", Some(0))),
        _ => panic!("request expected"),
    }
    match &steps[4] {
        ImportStep::Request { draft, folder } => assert_eq!((draft.url.as_str(), *folder), ("https://h", None)),
        _ => panic!("request expected"),
    }
}

#[test]
fn import_request_fields() {
    let r = PostmanRequest {
        method: Some("BREW".into()),
        url: PostmanUrl::Structured {
            raw: Some("https://a.com/x?q=1".into()),
            host: None,
            path: None,
            query: Some(vec![
                PostmanQueryParam { key: "q".into(), value: Some("1".into()), disabled: None },
                PostmanQueryParam { key: "off".into(), value: None, disabled: Some(true) },
            ]),
        },
        header: vec![PostmanHeader { key: "Accept".into(), value: "*/*".into(), disabled: Some(false) }],
        body: Some(PostmanBody {
            mode: Some("raw".into()),
            raw: Some("{}".into()),
            options: Some(PostmanBodyOptions { raw: Some(PostmanRawOptions { language: Some("json".into()) }) }),
        }),
    };
    let d = import_request(&"Req".to_string(), &r);
    assert_eq!(d.method, HttpMethod::GET);
    assert_eq!(d.url, "https://a.com/x?q=1");
    assert_eq!(d.query_params.len(), 2);
    assert_eq!((d.query_params[1].value.as_str(), d.query_params[1].enabled), ("", false));
    assert!(d.headers[0].enabled);
    assert_eq!(d.body_type, BodyType::Json);
    assert_eq!(d.body_content.as_deref(), Some("{}"));
}

#[test]
fn import_body_modes() {
    let body = |mode: Option<&str>, lang: Option<&str>| PostmanBody {
        mode: mode.map(|m| m.to_string()),
        raw: None,
        options: lang.map(|l| PostmanBodyOptions { raw: Some(PostmanRawOptions { language: Some(l.to_string()) }) }),
    };
    assert_eq!(import_body_type(&body(Some("raw"), Some("json"))), BodyType::Json);
    assert_eq!(import_body_type(&body(Some("raw"), Some("xml"))), BodyType::Text);
    assert_eq!(import_body_type(&body(Some("raw"), None)), BodyType::Text);
    assert_eq!(import_body_type(&body(Some("urlencoded"), None)), BodyType::FormUrlEncoded);
    assert_eq!(import_body_type(&body(Some("formdata"), None)), BodyType::NoBody);
    assert_eq!(import_body_type(&body(None, None)), BodyType::NoBody);
}

fn folder(id: &str, parent: Option<&str>, name: &str) -> Folder {
    Folder {
        id: id.into(),
        collection_id: "c".into(),
        parent_folder_id: parent.map(|p| p.to_string()),
        name: name.into(),
        sort_order: 0,
        created_at: "t".into(),
        updated_at: "t".into(),
    }
}

fn stored(id: &str, folder: Option<&str>) -> ApiRequest {
    ApiRequest {
        id: id.into(),
        name: format!("Req {}", id),
        method: HttpMethod::GET,
        url: "https://example.com".into(),
        headers: vec![KeyValue { key: "h".into(), value: "v".into(), enabled: false }],
        query_params: vec![],
        body_type: BodyType::Json,
        body_content: Some("{}".into()),
        auth_type: AuthType::NoAuth,
        auth_config: AuthConfig::NoAuth,
        collection_id: Some("c".into()),
        folder_id: folder.map(|f| f.to_string()),
        sort_order: 0,
        created_at: "t0".into(),
        updated_at: "t0".into(),
    }
}

fn collection() -> Collection {
    Collection {
        id: "c".into(),
        workspace_id: "w".into(),
        name: "Full".into(),
        description: None,
        created_at: "t".into(),
        updated_at: "t".into(),
    }
}

#[test]
fn tree_assembled_from_flat_lists() {
    let folders = vec![folder("f2", Some("f1"), "OAuth"), folder("f1", None, "Auth"), folder("f3", None, "Misc")];
    let requests = vec![stored("r1", None), stored("r2", Some("f1")), stored("r3", Some("f2")), stored("r4", Some("gone"))];
    let t = assemble_collection_tree(collection(), &folders, &requests);
    assert_eq!(t.root_folders.len(), 2);
    assert_eq!(t.root_folders[0].folder.name, "Auth");
    assert_eq!(t.root_folders[0].requests.len(), 1);
    assert_eq!(t.root_folders[0].requests[0].id, "r2");
    assert_eq!(t.root_folders[0].children.len(), 1);
    assert_eq!(t.root_folders[0].children[0].requests[0].id, "r3");
    assert!(t.root_folders[1].children.is_empty() && t.root_folders[1].requests.is_empty());
    assert_eq!(t.root_requests.len(), 1);
    assert_eq!(t.root_requests[0].id, "r1");
}

#[test]
fn tree_of_empty_collection() {
    let t = assemble_collection_tree(collection(), &vec![], &vec![]);
    assert_eq!(t.collection.name, "Full");
    assert!(t.root_folders.is_empty() && t.root_requests.is_empty());
}

fn empty_update(id: &str) -> UpdateRequestInput {
    UpdateRequestInput {
        id: id.into(),
        name: None,
        method: None,
        url: None,
        headers: None,
        query_params: None,
        body_type: None,
        body_content: None,
        auth_type: None,
        auth_config: None,
        collection_id: None,
        folder_id: None,
        sort_order: None,
    }
}

#[test]
fn partial_update_replaces_given_fields() {
    let mut u = empty_update("r1");
    u.name = Some("Updated Name".into());
    u.method = Some(HttpMethod::PUT);
    u.sort_order = Some(4);
    let r = apply_request_update(Some(stored("r1", None)), u, "t1".into()).unwrap();
    assert_eq!(r.name, "Updated Name");
    assert_eq!(r.method, HttpMethod::PUT);
    assert_eq!(r.url, "https://example.com");
    assert_eq!(r.body_content.as_deref(), Some("{}"));
    assert_eq!(r.sort_order, 4);
    assert_eq!((r.created_at.as_str(), r.updated_at.as_str()), ("t0", "t1"));
}

#[test]
fn update_of_missing_request_fails() {
    let err = apply_request_update(None, empty_update("nonexistent"), "t".into()).unwrap_err();
    assert_eq!(err, "Request not found: nonexistent");
}

fn var(id: &str) -> Variable {
    Variable {
        id: id.into(),
        environment_id: "e".into(),
        key: "K".into(),
        value: "v".into(),
        is_secret: false,
        enabled: true,
        sort_order: 0,
        created_at: String::new(),
        updated_at: String::new(),
    }
}

#[test]
fn variable_sync_plan() {
    let existing = vec!["a".to_string(), "b".to_string(), "c".to_string()];
    let plan = plan_variable_sync(&existing, &vec![var("b"), var(""), var("z")]);
    assert_eq!(plan.delete_ids, vec!["a".to_string(), "c".to_string()]);
    assert_eq!(plan.updates_existing, vec![true, false, false]);
}

#[test]
fn secret_values_shown_and_resolved() {
    assert_eq!(shown_value(false, "plain".into(), Err("x".into())), "plain");
    assert_eq!(shown_value(true, "enc".into(), Ok("clear".into())), "clear");
    assert_eq!(shown_value(true, "enc".into(), Err("bad".into())), "***");
    assert_eq!(resolved_value(true, "enc".into(), Err("bad".into())), "");
    assert_eq!(resolved_value(false, "v".into(), Ok("ignored".into())), "v");
}

#[test]
fn export_mirrors_tree() {
    let folders = vec![folder("f1", None, "Auth")];
    let mut login = stored("r2", Some("f1"));
    login.name = "Login".into();
    login.method = HttpMethod::POST;
    let mut users = stored("r1", None);
    users.name = "Get Users".into();
    users.body_type = BodyType::NoBody;
    let t = assemble_collection_tree(collection(), &folders, &vec![users, login]);
    let e = export_collection(&t);
    assert_eq!(e.name, "Full");
    assert_eq!(e.schema, POSTMAN_SCHEMA);
    assert_eq!(e.item.len(), 2);
    match &e.item[0] {
        ExportItem::Folder { name, item } => {
            assert_eq!(name, "Auth");
            match &item[0] {
                ExportItem::Request { name, method, header, body, .. } => {
                    assert_eq!((name.as_str(), method.as_str()), ("Login", "POST"));
                    assert!(header[0].disabled);
                    let b = body.as_ref().unwrap();
                    assert_eq!((b.mode.as_str(), b.language.as_deref(), b.raw.as_deref()), ("raw", Some("json"), Some("{}")));
                },
                _ => panic!("request expected"),
            }
        },
        _ => panic!("folder expected"),
    }
    match &e.item[1] {
        ExportItem::Request { name, method, body, .. } => {
            assert_eq!((name.as_str(), method.as_str()), ("Get Users", "GET"));
            assert!(body.is_none());
        },
        _ => panic!("request expected"),
    }
}
