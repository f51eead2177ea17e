//! A small item catalogue: create, list, fetch, patch and delete items,
//! with input validation and a closed error taxonomy mapped to HTTP statuses.

mod dto;
mod error;
mod id;
mod item;
mod lemmas;
mod routes;
mod service;
mod store;
mod text;

pub use dto::{CreateItemDto, UpdateItemDto};
pub use error::{message_of, not_found_message, status_of, AppError, ErrorModel};
pub use id::{lemma_fresh_uuid_not_nil, uuid_of_text};
pub use item::{copy_text, opt_text, Item, ItemModel};
pub use lemmas::{
    lemma_blank_name_not_created, lemma_blank_name_patch_refused, lemma_created_item_is_fetched,
    lemma_description_patch_keeps_name, lemma_missing_item_reported_before_patch,
    lemma_second_delete_not_found, lemma_unknown_id_not_found,
};
pub use routes::{
    bad_request, create_item, delete_item, delete_item_by_id, empty_response, error_response,
    get_item, get_item_by_id, health_check, invalid_id_message, item_response, list_items,
    malformed_request, respond_error, root, update_item, update_item_by_id, ApiResponse,
    BodyModel, ResponseBody, ResponseModel,
};
pub use service::{
    create_result, delete_result, get_result, id_in_use_message, item_result,
    name_required_message, patched, unit_result, update_result, ItemService,
};
pub use store::{contains_id, index_of, models, valid_store, ItemStore};
pub use text::{is_blank, is_blank_text, is_white_space, is_white_space_char};
