//! Partial updates of stored requests and syncing of environment variables.

use vstd::prelude::*;

use crate::records::Variable;
use crate::request::{ApiRequest, UpdateRequestInput};
use crate::text::{joined, same_text, text_of};

verus! {

/// The value a partial update leaves in a field: the new one when given.
pub open spec fn updated<T>(new: Option<T>, old: T) -> T {
    match new {
        Some(v) => v,
        None => old,
    }
}

/// An optional field is replaced only by a present value.
pub open spec fn updated_optional<T>(new: Option<T>, old: Option<T>) -> Option<T> {
    if new is Some {
        new
    } else {
        old
    }
}

/// Applies a partial update to the stored request: each given field replaces
/// the stored one, the creation time is kept and the update time is `now`.
/// Updating a request that is not stored is an error naming its id.
pub fn apply_request_update(
    existing: Option<ApiRequest>,
    input: UpdateRequestInput,
    now: String,
) -> (r: Result<ApiRequest, String>)
    ensures
        r is Err <==> existing is None,
        r matches Err(e) ==> e@ == "Request not found: "@ + input.id@,
        r matches Ok(u) ==> {
            let old = existing->0;
            &&& u.id == input.id
            &&& u.name == updated(input.name, old.name)
            &&& u.method == updated(input.method, old.method)
            &&& u.url == updated(input.url, old.url)
            &&& u.headers == updated(input.headers, old.headers)
            &&& u.query_params == updated(input.query_params, old.query_params)
            &&& u.body_type == updated(input.body_type, old.body_type)
            &&& u.body_content == updated_optional(input.body_content, old.body_content)
            &&& u.auth_type == updated(input.auth_type, old.auth_type)
            &&& u.auth_config == updated(input.auth_config, old.auth_config)
            &&& u.collection_id == updated_optional(input.collection_id, old.collection_id)
            &&& u.folder_id == updated_optional(input.folder_id, old.folder_id)
            &&& u.sort_order == updated(input.sort_order, old.sort_order)
            &&& u.created_at == old.created_at
            &&& u.updated_at == now
        },
{
    let old = match existing {
        Some(e) => e,
        None => return Err(joined("Request not found: ", input.id.as_str())),
    };
    let body_content = if input.body_content.is_some() {
        input.body_content
    } else {
        old.body_content
    };
    let collection_id = if input.collection_id.is_some() {
        input.collection_id
    } else {
        old.collection_id
    };
    let folder_id = if input.folder_id.is_some() {
        input.folder_id
    } else {
        old.folder_id
    };
    Ok(ApiRequest {
        id: input.id,
        name: match input.name {
            Some(v) => v,
            None => old.name,
        },
        method: match input.method {
            Some(v) => v,
            None => old.method,
        },
        url: match input.url {
            Some(v) => v,
            None => old.url,
        },
        headers: match input.headers {
            Some(v) => v,
            None => old.headers,
        },
        query_params: match input.query_params {
            Some(v) => v,
            None => old.query_params,
        },
        body_type: match input.body_type {
            Some(v) => v,
            None => old.body_type,
        },
        body_content,
        auth_type: match input.auth_type {
            Some(v) => v,
            None => old.auth_type,
        },
        auth_config: match input.auth_config {
            Some(v) => v,
            None => old.auth_config,
        },
        collection_id,
        folder_id,
        sort_order: match input.sort_order {
            Some(v) => v,
            None => old.sort_order,
        },
        created_at: old.created_at,
        updated_at: now,
    })
}

/// Whether `id` is among the ids of the variables.
pub open spec fn listed_id(variables: Seq<Variable>, id: Seq<char>) -> bool {
    exists|i: int| 0 <= i < variables.len() && (#[trigger] variables[i]).id@ == id
}

/// Whether `id` is among the ids.
pub open spec fn known_id(ids: Seq<String>, id: Seq<char>) -> bool {
    exists|i: int| 0 <= i < ids.len() && (#[trigger] ids[i])@ == id
}

/// The stored ids that the new list no longer holds, in stored order.
pub open spec fn dropped_ids(existing: Seq<String>, variables: Seq<Variable>) -> Seq<Seq<char>>
    decreases existing.len(),
{
    if existing.len() == 0 {
        Seq::empty()
    } else {
        let before = dropped_ids(existing.drop_last(), variables);
        if listed_id(variables, existing.last()@) {
            before
        } else {
            before.push(existing.last()@)
        }
    }
}

/// How to bring an environment's stored variables in line with a new list:
/// the ids to delete, and for each variable of the list, by position,
/// whether it updates a stored row (else it is inserted).
#[derive(Debug)]
pub struct VariableSync {
    pub delete_ids: Vec<String>,
    pub updates_existing: Vec<bool>,
}

fn is_known(ids: &Vec<String>, id: &str) -> (r: bool)
    ensures
        r == known_id(ids@, id@),
{
    let mut i: usize = 0;
    while i < ids.len()
        invariant
            i <= ids@.len(),
            forall|j: int| 0 <= j < i ==> ids@[j]@ != id@,
        decreases ids@.len() - i,
    {
        if same_text(ids[i].as_str(), id) {
            return true;
        }
        i = i + 1;
    }
    false
}

fn is_listed(variables: &Vec<Variable>, id: &str) -> (r: bool)
    ensures
        r == listed_id(variables@, id@),
{
    let mut i: usize = 0;
    while i < variables.len()
        invariant
            i <= variables@.len(),
            forall|j: int| 0 <= j < i ==> variables@[j].id@ != id@,
        decreases variables@.len() - i,
    {
        if same_text(variables[i].id.as_str(), id) {
            return true;
        }
        i = i + 1;
    }
    false
}

/// Plans a variable sync: every stored id missing from the new list is
/// deleted; every variable of the list updates the stored row with its id
/// when there is one and is inserted otherwise.
pub fn plan_variable_sync(existing_ids: &Vec<String>, variables: &Vec<Variable>) -> (s: VariableSync)
    ensures
        s.delete_ids@.map_values(|id: String| id@) == dropped_ids(existing_ids@, variables@),
        s.updates_existing@.len() == variables@.len(),
        forall|i: int|
            0 <= i < variables@.len() ==> #[trigger] s.updates_existing@[i] == known_id(existing_ids@, variables@[i].id@),
{
    let mut delete_ids: Vec<String> = Vec::new();
    let mut i: usize = 0;
    while i < existing_ids.len()
        invariant
            i <= existing_ids@.len(),
            delete_ids@.map_values(|id: String| id@) == dropped_ids(existing_ids@.subrange(0, i as int), variables@),
        decreases existing_ids@.len() - i,
    {
        proof {
            assert(existing_ids@.subrange(0, i + 1).drop_last() == existing_ids@.subrange(0, i as int));
        }
        if !is_listed(variables, existing_ids[i].as_str()) {
            delete_ids.push(existing_ids[i].clone());
            proof {
                assert(delete_ids@.map_values(|id: String| id@) == dropped_ids(existing_ids@.subrange(0, i as int), variables@).push(existing_ids@[i as int]@));
            }
        }
        i = i + 1;
    }
    proof {
        assert(existing_ids@.subrange(0, existing_ids@.len() as int) == existing_ids@);
    }
    let mut updates_existing: Vec<bool> = Vec::new();
    let mut k: usize = 0;
    while k < variables.len()
        invariant
            k <= variables@.len(),
            updates_existing@.len() == k,
            forall|j: int|
                0 <= j < k ==> #[trigger] updates_existing@[j] == known_id(existing_ids@, variables@[j].id@),
        decreases variables@.len() - k,
    {
        updates_existing.push(is_known(existing_ids, variables[k].id.as_str()));
        k = k + 1;
    }
    VariableSync { delete_ids, updates_existing }
}

/// A variable's value as shown: a secret one decrypted, or `***` when it
/// cannot be.
pub fn shown_value(is_secret: bool, stored: String, decrypted: Result<String, String>) -> (r: String)
    ensures
        !is_secret ==> r == stored,
        is_secret ==> r@ == match decrypted {
            Ok(t) => t@,
            Err(_) => "***"@,
        },
{
    if is_secret {
        match decrypted {
            Ok(t) => t,
            Err(_) => "***".to_owned(),
        }
    } else {
        stored
    }
}

/// A variable's value when resolved for a request: a secret one decrypted,
/// or empty when it cannot be.
pub fn resolved_value(is_secret: bool, stored: String, decrypted: Result<String, String>) -> (r: String)
    ensures
        !is_secret ==> r == stored,
        is_secret ==> r@ == match decrypted {
            Ok(t) => t@,
            Err(_) => Seq::empty(),
        },
{
    if is_secret {
        match decrypted {
            Ok(t) => t,
            Err(_) => String::new(),
        }
    } else {
        stored
    }
}

} // verus!
