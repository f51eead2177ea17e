use vstd::prelude::*;

use crate::error::ErrorModel;
use crate::item::ItemModel;
use crate::routes::{empty_response, item_response};
use crate::service::{
    create_result, delete_result, get_result, name_required_message, update_result,
};
use crate::store::{contains_id, index_of, valid_store};
use crate::text::is_blank;

verus! {

/// A successful create answers with the request's name and description, and a
/// later fetch by the identifier it was given answers with that same item.
pub proof fn lemma_created_item_is_fetched(
    s: Seq<ItemModel>,
    name: Seq<char>,
    description: Option<Seq<char>>,
    id: u128,
)
    requires
        create_result(s, name, description, id).1 is Ok,
    ensures
        ({
            let (after, r) = create_result(s, name, description, id);
            &&& r == Ok::<ItemModel, ErrorModel>(ItemModel { id, name, description })
            &&& get_result(after, id) == r
            &&& item_response(r, 201).status == 201
            &&& item_response(get_result(after, id), 200).status == 200
        }),
{
    let after = create_result(s, name, description, id).0;
    assert(after[s.len() as int].id == id);
    assert(contains_id(after, id));
    let k = index_of(after, id);
    if k < s.len() {
        assert(s[k].id == id);
    }
}

/// A create whose name is blank is refused with a validation error (400) and
/// leaves the store as it was.
pub proof fn lemma_blank_name_not_created(
    s: Seq<ItemModel>,
    name: Seq<char>,
    description: Option<Seq<char>>,
    id: u128,
)
    requires
        is_blank(name),
    ensures
        create_result(s, name, description, id) == (s, Err::<ItemModel, ErrorModel>(
            ErrorModel::Validation(name_required_message()),
        )),
        item_response(create_result(s, name, description, id).1, 201).status == 400,
{
}

/// Fetching an identifier that no stored item has is answered with not-found (404).
pub proof fn lemma_unknown_id_not_found(s: Seq<ItemModel>, id: u128)
    requires
        !contains_id(s, id),
    ensures
        get_result(s, id) == Err::<ItemModel, ErrorModel>(ErrorModel::NotFound(id)),
        item_response(get_result(s, id), 200).status == 404,
{
}

/// A patch that sets only the description keeps the stored name and replaces
/// the description.
pub proof fn lemma_description_patch_keeps_name(
    s: Seq<ItemModel>,
    id: u128,
    description: Seq<char>,
)
    requires
        valid_store(s),
        contains_id(s, id),
    ensures
        ({
            let (after, r) = update_result(s, id, None, Some(description));
            &&& r is Ok
            &&& r->Ok_0.id == id
            &&& r->Ok_0.name == s[index_of(s, id)].name
            &&& r->Ok_0.description == Some(description)
            &&& get_result(after, id) == r
            &&& item_response(r, 200).status == 200
        }),
{
    let k = index_of(s, id);
    assert(0 <= k < s.len() && s[k].id == id);
    let after = update_result(s, id, None, Some(description)).0;
    assert(after[k].id == id);
    lemma_index_of_after_update(s, id, k, after);
}

proof fn lemma_index_of_after_update(s: Seq<ItemModel>, id: u128, k: int, after: Seq<ItemModel>)
    requires
        valid_store(s),
        0 <= k < s.len(),
        s[k].id == id,
        after.len() == s.len(),
        after[k].id == id,
        forall|j: int| 0 <= j < s.len() && j != k ==> after[j] == s[j],
    ensures
        contains_id(after, id),
        index_of(after, id) == k,
{
    assert(contains_id(after, id));
    let j = index_of(after, id);
    if j != k {
        assert(s[j].id == id);
    }
}

/// A patch that sets a blank name is refused with a validation error (400) and
/// leaves the store as it was.
pub proof fn lemma_blank_name_patch_refused(
    s: Seq<ItemModel>,
    id: u128,
    name: Seq<char>,
    description: Option<Seq<char>>,
)
    requires
        contains_id(s, id),
        is_blank(name),
    ensures
        update_result(s, id, Some(name), description) == (s, Err::<ItemModel, ErrorModel>(
            ErrorModel::Validation(name_required_message()),
        )),
        item_response(update_result(s, id, Some(name), description).1, 200).status == 400,
{
}

/// A patch of an item that does not exist is answered with not-found (404),
/// whatever the patch holds, and leaves the store as it was.
pub proof fn lemma_missing_item_reported_before_patch(
    s: Seq<ItemModel>,
    id: u128,
    name: Option<Seq<char>>,
    description: Option<Seq<char>>,
)
    requires
        !contains_id(s, id),
    ensures
        update_result(s, id, name, description) == (s, Err::<ItemModel, ErrorModel>(
            ErrorModel::NotFound(id),
        )),
        item_response(update_result(s, id, name, description).1, 200).status == 404,
{
}

/// Deleting an item twice: the first delete succeeds (204), the second is
/// answered with not-found (404).
pub proof fn lemma_second_delete_not_found(s: Seq<ItemModel>, id: u128)
    requires
        valid_store(s),
        contains_id(s, id),
    ensures
        ({
            let (after, first) = delete_result(s, id);
            let second = delete_result(after, id).1;
            &&& first == Ok::<(), ErrorModel>(())
            &&& empty_response(first).status == 204
            &&& second == Err::<(), ErrorModel>(ErrorModel::NotFound(id))
            &&& empty_response(second).status == 404
            &&& after.len() + 1 == s.len()
        }),
{
    let k = index_of(s, id);
    assert(0 <= k < s.len() && s[k].id == id);
    let after = s.remove(k);
    if contains_id(after, id) {
        let j = choose|j: int| 0 <= j < after.len() && #[trigger] after[j].id == id;
        let j0 = if j < k { j } else { j + 1 };
        assert(s[j0].id == id);
    }
}

} // verus!
