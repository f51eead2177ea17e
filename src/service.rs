use vstd::prelude::*;

use crate::dto::{CreateItemDto, UpdateItemDto};
use crate::error::{AppError, ErrorModel};
use crate::id::{lemma_fresh_uuid_not_nil, new_uuid};
use crate::item::{copy_text, opt_text, Item, ItemModel};
use crate::store::{contains_id, index_of, lemma_index_of, models, ItemStore};
use crate::text::{is_blank, is_blank_text};

verus! {

pub open spec fn name_required_message() -> Seq<char> {
    "name is required"@
}

pub open spec fn id_in_use_message() -> Seq<char> {
    "item id already in use"@
}

pub open spec fn item_result(r: Result<Item, AppError>) -> Result<ItemModel, ErrorModel> {
    match r {
        Ok(it) => Ok(it@),
        Err(e) => Err(e@),
    }
}

pub open spec fn unit_result(r: Result<(), AppError>) -> Result<(), ErrorModel> {
    match r {
        Ok(_) => Ok(()),
        Err(e) => Err(e@),
    }
}

/// Creating an item with identifier `id`: the store after, and the answer.
pub open spec fn create_result(
    s: Seq<ItemModel>,
    name: Seq<char>,
    description: Option<Seq<char>>,
    id: u128,
) -> (Seq<ItemModel>, Result<ItemModel, ErrorModel>) {
    if is_blank(name) {
        (s, Err(ErrorModel::Validation(name_required_message())))
    } else if contains_id(s, id) {
        (s, Err(ErrorModel::Persistence(id_in_use_message())))
    } else {
        let it = ItemModel { id, name, description };
        (s.push(it), Ok(it))
    }
}

pub open spec fn get_result(s: Seq<ItemModel>, id: u128) -> Result<ItemModel, ErrorModel> {
    if contains_id(s, id) {
        Ok(s[index_of(s, id)])
    } else {
        Err(ErrorModel::NotFound(id))
    }
}

/// An item with the fields present in a patch overwritten.
pub open spec fn patched(
    it: ItemModel,
    name: Option<Seq<char>>,
    description: Option<Seq<char>>,
) -> ItemModel {
    ItemModel {
        id: it.id,
        name: match name {
            Some(n) => n,
            None => it.name,
        },
        description: match description {
            Some(d) => Some(d),
            None => it.description,
        },
    }
}

/// Patching the item `id`: the store after, and the answer.
pub open spec fn update_result(
    s: Seq<ItemModel>,
    id: u128,
    name: Option<Seq<char>>,
    description: Option<Seq<char>>,
) -> (Seq<ItemModel>, Result<ItemModel, ErrorModel>) {
    if !contains_id(s, id) {
        (s, Err(ErrorModel::NotFound(id)))
    } else {
        let it = patched(s[index_of(s, id)], name, description);
        if is_blank(it.name) {
            (s, Err(ErrorModel::Validation(name_required_message())))
        } else {
            (s.update(index_of(s, id), it), Ok(it))
        }
    }
}

/// Deleting the item `id`: the store after, and the answer.
pub open spec fn delete_result(s: Seq<ItemModel>, id: u128) -> (Seq<ItemModel>, Result<(), ErrorModel>) {
    if contains_id(s, id) {
        (s.remove(index_of(s, id)), Ok(()))
    } else {
        (s, Err(ErrorModel::NotFound(id)))
    }
}

/// The item operations, over a store handed in by the caller.
pub struct ItemService;

impl ItemService {
    /// Creates an item under the given identifier.
    pub fn create_with_id(store: &mut ItemStore, dto: CreateItemDto, id: u128) -> (r: Result<
        Item,
        AppError,
    >)
        requires
            old(store).valid(),
        ensures
            final(store).valid(),
            (final(store)@, item_result(r)) == create_result(
                old(store)@,
                dto.name@,
                opt_text(dto.description),
                id,
            ),
    {
        if is_blank_text(dto.name.as_str()) {
            return Err(AppError::Validation(String::from_str("name is required")));
        }
        if store.position_of(id).is_some() {
            return Err(AppError::Persistence(String::from_str("item id already in use")));
        }
        let item = Item { id, name: dto.name, description: dto.description };
        store.insert(item.duplicate());
        Ok(item)
    }

    /// Creates an item under a fresh random identifier.
    pub fn create(store: &mut ItemStore, dto: CreateItemDto) -> (r: Result<Item, AppError>)
        requires
            old(store).valid(),
        ensures
            final(store).valid(),
            match r {
                Ok(item) => (final(store)@, item_result(r)) == create_result(
                    old(store)@,
                    dto.name@,
                    opt_text(dto.description),
                    item.id,
                ),
                Err(e) => final(store)@ == old(store)@ && if is_blank(dto.name@) {
                    e@ == ErrorModel::Validation(name_required_message())
                } else {
                    e@ == ErrorModel::Persistence(id_in_use_message())
                },
            },
            is_blank(dto.name@) ==> r is Err,
            r is Ok ==> r->Ok_0.id != 0,
            old(store)@.len() == 0 && !is_blank(dto.name@) ==> r is Ok,
    {
        let id = new_uuid();
        proof {
            lemma_fresh_uuid_not_nil(id);
        }
        Self::create_with_id(store, dto, id)
    }

    /// Every stored item, in store order.
    pub fn list(store: &ItemStore) -> (r: Vec<Item>)
        ensures
            models(r@) == store@,
    {
        store.snapshot()
    }

    pub fn get_by_id(store: &ItemStore, id: u128) -> (r: Result<Item, AppError>)
        requires
            store.valid(),
        ensures
            item_result(r) == get_result(store@, id),
    {
        match store.position_of(id) {
            Some(i) => Ok(store.item_at(i).duplicate()),
            None => Err(AppError::NotFound(id)),
        }
    }

    /// Applies the fields present in `dto` to the item `id`.
    pub fn update(store: &mut ItemStore, id: u128, dto: UpdateItemDto) -> (r: Result<
        Item,
        AppError,
    >)
        requires
            old(store).valid(),
        ensures
            final(store).valid(),
            (final(store)@, item_result(r)) == update_result(
                old(store)@,
                id,
                opt_text(dto.name),
                opt_text(dto.description),
            ),
    {
        let i = match store.position_of(id) {
            Some(i) => i,
            None => return Err(AppError::NotFound(id)),
        };
        let current = store.item_at(i);
        let name = match dto.name {
            Some(n) => n,
            None => current.name.clone(),
        };
        let description = match dto.description {
            Some(d) => Some(d),
            None => copy_text(&current.description),
        };
        if is_blank_text(name.as_str()) {
            return Err(AppError::Validation(String::from_str("name is required")));
        }
        let item = Item { id, name, description };
        store.replace(i, item.duplicate());
        Ok(item)
    }

    pub fn delete(store: &mut ItemStore, id: u128) -> (r: Result<(), AppError>)
        requires
            old(store).valid(),
        ensures
            final(store).valid(),
            (final(store)@, unit_result(r)) == delete_result(old(store)@, id),
    {
        match store.position_of(id) {
            Some(i) => {
                store.remove_at(i);
                Ok(())
            },
            None => Err(AppError::NotFound(id)),
        }
    }
}

} // verus!
