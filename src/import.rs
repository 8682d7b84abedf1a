//! What importing a Postman collection creates, as an ordered plan.

use vstd::prelude::*;

use crate::postman::{PostmanBody, PostmanHeader, PostmanItem, PostmanQueryParam, PostmanRequest};
use crate::request::{BodyType, HttpMethod, KeyValue};
use crate::text::{same_text, text_of, upper_of};

verus! {

broadcast use vstd::std_specs::vec::group_vec_axioms;

/// A request read from an imported collection, before it is stored.
#[derive(Debug, Clone)]
pub struct RequestDraft {
    pub name: String,
    pub method: HttpMethod,
    pub url: String,
    pub headers: Vec<KeyValue>,
    pub query_params: Vec<KeyValue>,
    pub body_type: BodyType,
    pub body_content: Option<String>,
}

/// One thing an import creates. A parent or folder is the index of an
/// earlier folder step of the same plan; `None` is the collection's top level.
#[derive(Debug, Clone)]
pub enum ImportStep {
    Folder { name: String, parent: Option<usize> },
    Request { draft: RequestDraft, folder: Option<usize> },
}

pub type PairView = (Seq<char>, Seq<char>, bool);

pub open spec fn pair_view(kv: KeyValue) -> PairView {
    (kv.key@, kv.value@, kv.enabled)
}

pub ghost struct DraftView {
    pub name: Seq<char>,
    pub method: HttpMethod,
    pub url: Seq<char>,
    pub headers: Seq<PairView>,
    pub query_params: Seq<PairView>,
    pub body_type: BodyType,
    pub body_content: Option<Seq<char>>,
}

pub ghost enum StepView {
    Folder { name: Seq<char>, parent: Option<int> },
    Request { draft: DraftView, folder: Option<int> },
}

pub open spec fn opt_index(o: Option<usize>) -> Option<int> {
    match o {
        Some(i) => Some(i as int),
        None => None,
    }
}

pub open spec fn draft_view(d: RequestDraft) -> DraftView {
    DraftView {
        name: d.name@,
        method: d.method,
        url: d.url@,
        headers: d.headers@.map_values(|kv: KeyValue| pair_view(kv)),
        query_params: d.query_params@.map_values(|kv: KeyValue| pair_view(kv)),
        body_type: d.body_type,
        body_content: text_of(d.body_content),
    }
}

pub open spec fn step_view(s: ImportStep) -> StepView {
    match s {
        ImportStep::Folder { name, parent } => StepView::Folder { name: name@, parent: opt_index(parent) },
        ImportStep::Request { draft, folder } => StepView::Request { draft: draft_view(draft), folder: opt_index(folder) },
    }
}

pub open spec fn steps_view(s: Seq<ImportStep>) -> Seq<StepView> {
    s.map_values(|x: ImportStep| step_view(x))
}

/// An imported header: enabled unless marked disabled.
pub open spec fn header_pair(h: PostmanHeader) -> PairView {
    (h.key@, h.value@, !(h.disabled == Some(true)))
}

/// An imported query parameter: a missing value is empty; enabled unless
/// marked disabled.
pub open spec fn param_pair(p: PostmanQueryParam) -> PairView {
    (p.key@, match p.value {
        Some(v) => v@,
        None => Seq::empty(),
    }, !(p.disabled == Some(true)))
}

/// The body type of an imported body: raw content is JSON when its language
/// says so and text otherwise, url-encoded content is a form, anything else
/// has no body type.
pub open spec fn imported_body_type(b: PostmanBody) -> BodyType {
    let mode = match b.mode {
        Some(m) => m@,
        None => "none"@,
    };
    let json = match b.options {
        Some(o) => match o.raw {
            Some(r) => match r.language {
                Some(l) => l@ == "json"@,
                None => false,
            },
            None => false,
        },
        None => false,
    };
    if mode == "raw"@ {
        if json {
            BodyType::Json
        } else {
            BodyType::Text
        }
    } else if mode == "urlencoded"@ {
        BodyType::FormUrlEncoded
    } else {
        BodyType::NoBody
    }
}

/// The method of an imported request: its name in any case, `GET` when the
/// name is missing or unknown.
pub open spec fn imported_method(m: Option<String>) -> HttpMethod {
    let name = match m {
        Some(t) => t@,
        None => "GET"@,
    };
    match HttpMethod::named(upper_of(name)) {
        Some(x) => x,
        None => HttpMethod::GET,
    }
}

/// The draft an imported request becomes.
pub open spec fn imported_draft(name: Seq<char>, r: PostmanRequest) -> DraftView {
    DraftView {
        name,
        method: imported_method(r.method),
        url: r.url.raw_text(),
        headers: r.header@.map_values(|h: PostmanHeader| header_pair(h)),
        query_params: r.url.listed_params().map_values(|p: PostmanQueryParam| param_pair(p)),
        body_type: match r.body {
            Some(b) => imported_body_type(b),
            None => BodyType::NoBody,
        },
        body_content: match r.body {
            Some(b) => text_of(b.raw),
            None => None,
        },
    }
}

/// The steps of one item placed at index `at`: a folder first, then its
/// contents under it; a request alone.
pub open spec fn item_steps(item: PostmanItem, parent: Option<int>, at: int) -> Seq<StepView>
    decreases item,
{
    match item {
        PostmanItem::Folder { name, item: children } => seq![
            StepView::Folder { name: name@, parent },
        ] + items_steps(children@, Some(at), at + 1),
        PostmanItem::Request { name, request } => seq![
            StepView::Request { draft: imported_draft(name@, request), folder: parent },
        ],
    }
}

/// The steps of a list of items under one parent, depth first and in order,
/// the first placed at index `at`.
pub open spec fn items_steps(items: Seq<PostmanItem>, parent: Option<int>, at: int) -> Seq<StepView>
    decreases items,
{
    if items.len() == 0 {
        Seq::empty()
    } else {
        let before = items_steps(items.drop_last(), parent, at);
        before + item_steps(items.last(), parent, at + before.len())
    }
}

fn imported_pairs_from_headers(hs: &Vec<PostmanHeader>) -> (r: Vec<KeyValue>)
    ensures
        r@.map_values(|kv: KeyValue| pair_view(kv)) == hs@.map_values(|h: PostmanHeader| header_pair(h)),
{
    let mut out: Vec<KeyValue> = Vec::new();
    let mut i: usize = 0;
    while i < hs.len()
        invariant
            i <= hs@.len(),
            out@.len() == i,
            forall|j: int| 0 <= j < i ==> pair_view(#[trigger] out@[j]) == header_pair(hs@[j]),
        decreases hs@.len() - i,
    {
        let h = &hs[i];
        let disabled = match h.disabled {
            Some(d) => d,
            None => false,
        };
        out.push(KeyValue { key: h.key.clone(), value: h.value.clone(), enabled: !disabled });
        i = i + 1;
    }
    assert(out@.map_values(|kv: KeyValue| pair_view(kv)) =~= hs@.map_values(|h: PostmanHeader| header_pair(h)));
    out
}

fn imported_pairs_from_params(ps: &Vec<PostmanQueryParam>) -> (r: Vec<KeyValue>)
    ensures
        r@.map_values(|kv: KeyValue| pair_view(kv)) == ps@.map_values(|p: PostmanQueryParam| param_pair(p)),
{
    let mut out: Vec<KeyValue> = Vec::new();
    let mut i: usize = 0;
    while i < ps.len()
        invariant
            i <= ps@.len(),
            out@.len() == i,
            forall|j: int| 0 <= j < i ==> pair_view(#[trigger] out@[j]) == param_pair(ps@[j]),
        decreases ps@.len() - i,
    {
        let p = &ps[i];
        let disabled = match p.disabled {
            Some(d) => d,
            None => false,
        };
        let value = match &p.value {
            Some(v) => v.clone(),
            None => String::new(),
        };
        out.push(KeyValue { key: p.key.clone(), value, enabled: !disabled });
        i = i + 1;
    }
    assert(out@.map_values(|kv: KeyValue| pair_view(kv)) =~= ps@.map_values(|p: PostmanQueryParam| param_pair(p)));
    out
}

/// The body type of an imported body.
pub fn import_body_type(b: &PostmanBody) -> (r: BodyType)
    ensures
        r == imported_body_type(*b),
{
    let json = match &b.options {
        Some(o) => match &o.raw {
            Some(r) => match &r.language {
                Some(l) => same_text(l.as_str(), "json"),
                None => false,
            },
            None => false,
        },
        None => false,
    };
    let mode: &str = match &b.mode {
        Some(m) => m.as_str(),
        None => "none",
    };
    if same_text(mode, "raw") {
        if json {
            BodyType::Json
        } else {
            BodyType::Text
        }
    } else if same_text(mode, "urlencoded") {
        BodyType::FormUrlEncoded
    } else {
        BodyType::NoBody
    }
}

/// The draft an imported request becomes: its method (GET when missing or
/// unknown), URL text, headers and query parameters as pairs, and body.
pub fn import_request(name: &String, r: &PostmanRequest) -> (d: RequestDraft)
    ensures
        draft_view(d) == imported_draft(name@, *r),
{
    let method_name: &str = match &r.method {
        Some(m) => m.as_str(),
        None => "GET",
    };
    let method = match HttpMethod::from_str(method_name) {
        Ok(x) => x,
        Err(_) => HttpMethod::GET,
    };
    let params = r.url.query_params();
    let query_params = imported_pairs_from_params(&params);
    proof {
        assert(params@.map_values(|p: PostmanQueryParam| param_pair(p))
            =~= r.url.listed_params().map_values(|p: PostmanQueryParam| param_pair(p)));
    }
    let (body_type, body_content) = match &r.body {
        Some(b) => (import_body_type(b), match &b.raw {
            Some(t) => Some(t.clone()),
            None => None,
        }),
        None => (BodyType::NoBody, None),
    };
    RequestDraft {
        name: name.clone(),
        method,
        url: r.url.raw_url(),
        headers: imported_pairs_from_headers(&r.header),
        query_params,
        body_type,
        body_content,
    }
}

fn plan_item(item: &PostmanItem, parent: Option<usize>, steps: &mut Vec<ImportStep>)
    ensures
        steps_view(final(steps)@) == steps_view(old(steps)@) + item_steps(*item, opt_index(parent), old(steps)@.len() as int),
    decreases item,
{
    match item {
        PostmanItem::Folder { name, item: children } => {
            let at = steps.len();
            steps.push(ImportStep::Folder { name: name.clone(), parent });
            proof {
                assert(steps_view(steps@) == steps_view(old(steps)@) + seq![step_view(steps@.last())]);
            }
            plan_items(children, Some(at), steps);
        },
        PostmanItem::Request { name, request } => {
            steps.push(ImportStep::Request { draft: import_request(name, request), folder: parent });
            proof {
                assert(steps_view(steps@) == steps_view(old(steps)@) + seq![step_view(steps@.last())]);
            }
        },
    }
}

fn plan_items(items: &Vec<PostmanItem>, parent: Option<usize>, steps: &mut Vec<ImportStep>)
    ensures
        steps_view(final(steps)@) == steps_view(old(steps)@) + items_steps(items@, opt_index(parent), old(steps)@.len() as int),
    decreases items,
{
    let ghost start = steps@.len() as int;
    let mut i: usize = 0;
    while i < items.len()
        invariant
            i <= items@.len(),
            start == old(steps)@.len(),
            steps_view(steps@) == steps_view(old(steps)@) + items_steps(items@.subrange(0, i as int), opt_index(parent), start),
            steps@.len() == start + items_steps(items@.subrange(0, i as int), opt_index(parent), start).len(),
        decreases items@.len() - i,
    {
        proof {
            assert(items@.subrange(0, i + 1).drop_last() == items@.subrange(0, i as int));
        }
        let ghost before = steps@;
        plan_item(&items[i], parent, steps);
        proof {
            assert(steps_view(steps@).len() == steps@.len());
            assert(steps_view(before).len() == before.len());
        }
        i = i + 1;
    }
    proof {
        assert(items@.subrange(0, items@.len() as int) == items@);
    }
}

/// The steps that importing the items creates, depth first: each folder,
/// then what it holds (under it), then the next item; each request with its
/// folder.
pub fn plan_import(items: &Vec<PostmanItem>) -> (steps: Vec<ImportStep>)
    ensures
        steps_view(steps@) == items_steps(items@, None, 0),
{
    let mut steps: Vec<ImportStep> = Vec::new();
    plan_items(items, None, &mut steps);
    assert(steps_view(steps@) =~= items_steps(items@, None, 0));
    steps
}

} // verus!
