use vstd::prelude::*;

use crate::dto::{CreateItemDto, UpdateItemDto};
use crate::error::{message_of, status_of, AppError, ErrorModel};
use crate::id::{parse_uuid, uuid_of_text};
use crate::item::{opt_text, Item, ItemModel};
use crate::service::{
    create_result, delete_result, get_result, id_in_use_message, name_required_message,
    update_result, ItemService,
};
use crate::store::{models, ItemStore};
use crate::text::is_blank;

verus! {

/// What a response body is, mathematically.
pub enum BodyModel {
    Item(ItemModel),
    Items(Seq<ItemModel>),
    Empty,
    Error(Seq<char>),
    Health,
    Service,
}

pub struct ResponseModel {
    pub status: u16,
    pub body: BodyModel,
}

/// The body of a response, before it is written out as JSON.
pub enum ResponseBody {
    /// One item.
    Item(Item),
    /// An array of items.
    Items(Vec<Item>),
    /// No body at all.
    Empty,
    /// `{"error": message}`.
    Error(String),
    /// `{"status": "healthy"}`.
    Health,
    /// The service's name, and `"status": "running"`.
    Service,
}

pub struct ApiResponse {
    pub status: u16,
    pub body: ResponseBody,
}

impl View for ResponseBody {
    type V = BodyModel;

    open spec fn view(&self) -> BodyModel {
        match self {
            ResponseBody::Item(it) => BodyModel::Item(it@),
            ResponseBody::Items(v) => BodyModel::Items(models(v@)),
            ResponseBody::Empty => BodyModel::Empty,
            ResponseBody::Error(m) => BodyModel::Error(m@),
            ResponseBody::Health => BodyModel::Health,
            ResponseBody::Service => BodyModel::Service,
        }
    }
}

impl View for ApiResponse {
    type V = ResponseModel;

    open spec fn view(&self) -> ResponseModel {
        ResponseModel { status: self.status, body: self.body@ }
    }
}

pub open spec fn invalid_id_message() -> Seq<char> {
    "invalid item id"@
}

pub open spec fn bad_request(message: Seq<char>) -> ResponseModel {
    ResponseModel { status: 400, body: BodyModel::Error(message) }
}

pub open spec fn error_response(e: ErrorModel) -> ResponseModel {
    ResponseModel { status: status_of(e), body: BodyModel::Error(message_of(e)) }
}

/// The response to an operation that answers with an item, `ok` being its
/// success status.
pub open spec fn item_response(r: Result<ItemModel, ErrorModel>, ok: u16) -> ResponseModel {
    match r {
        Ok(it) => ResponseModel { status: ok, body: BodyModel::Item(it) },
        Err(e) => error_response(e),
    }
}

pub open spec fn empty_response(r: Result<(), ErrorModel>) -> ResponseModel {
    match r {
        Ok(_) => ResponseModel { status: 204, body: BodyModel::Empty },
        Err(e) => error_response(e),
    }
}

/// The one place where an error becomes a status and a body.
pub fn respond_error(e: AppError) -> (r: ApiResponse)
    ensures
        r@ == error_response(e@),
{
    let status = e.status_code();
    ApiResponse { status, body: ResponseBody::Error(e.message()) }
}

fn respond_item(res: Result<Item, AppError>, ok: u16) -> (r: ApiResponse)
    ensures
        r@ == item_response(
            match res {
                Ok(it) => Ok(it@),
                Err(e) => Err(e@),
            },
            ok,
        ),
{
    match res {
        Ok(item) => ApiResponse { status: ok, body: ResponseBody::Item(item) },
        Err(e) => respond_error(e),
    }
}

/// A request whose body or path could not be decoded.
pub fn malformed_request(message: String) -> (r: ApiResponse)
    ensures
        r@ == bad_request(message@),
{
    ApiResponse { status: 400, body: ResponseBody::Error(message) }
}

/// `GET /api/health`.
pub fn health_check() -> (r: ApiResponse)
    ensures
        r@ == (ResponseModel { status: 200, body: BodyModel::Health }),
{
    ApiResponse { status: 200, body: ResponseBody::Health }
}

/// `GET /`.
pub fn root() -> (r: ApiResponse)
    ensures
        r@ == (ResponseModel { status: 200, body: BodyModel::Service }),
{
    ApiResponse { status: 200, body: ResponseBody::Service }
}

/// `POST /api/items`.
pub fn create_item(store: &mut ItemStore, dto: CreateItemDto) -> (r: ApiResponse)
    requires
        old(store).valid(),
    ensures
        final(store).valid(),
        old(store)@.len() == 0 && !is_blank(dto.name@) ==> r@.status == 201,
        is_blank(dto.name@) ==> final(store)@ == old(store)@ && r@ == error_response(
            ErrorModel::Validation(name_required_message()),
        ),
        !is_blank(dto.name@) ==> {
            ||| r@.body matches BodyModel::Item(it) && r@.status == 201 && it.id != 0 && (
            final(store)@,
            Ok::<ItemModel, ErrorModel>(it),
            ) == create_result(old(store)@, dto.name@, opt_text(dto.description), it.id)
            ||| final(store)@ == old(store)@ && r@ == error_response(
                ErrorModel::Persistence(id_in_use_message()),
            )
        },
{
    match ItemService::create(store, dto) {
        Ok(item) => ApiResponse { status: 201, body: ResponseBody::Item(item) },
        Err(e) => respond_error(e),
    }
}

/// `GET /api/items`.
pub fn list_items(store: &ItemStore) -> (r: ApiResponse)
    ensures
        r@ == (ResponseModel { status: 200, body: BodyModel::Items(store@) }),
{
    ApiResponse { status: 200, body: ResponseBody::Items(ItemService::list(store)) }
}

/// `GET /api/items/{id}`, the path parameter already read (`None` when it is
/// not an identifier).
pub fn get_item_by_id(store: &ItemStore, id: Option<u128>) -> (r: ApiResponse)
    requires
        store.valid(),
    ensures
        r@ == match id {
            None => bad_request(invalid_id_message()),
            Some(u) => item_response(get_result(store@, u), 200),
        },
{
    match id {
        None => malformed_request(String::from_str("invalid item id")),
        Some(u) => respond_item(ItemService::get_by_id(store, u), 200),
    }
}

/// `GET /api/items/{id}`.
pub fn get_item(store: &ItemStore, id: &str) -> (r: ApiResponse)
    requires
        store.valid(),
    ensures
        r@ == match uuid_of_text(id@) {
            None => bad_request(invalid_id_message()),
            Some(u) => item_response(get_result(store@, u), 200),
        },
{
    get_item_by_id(store, parse_uuid(id))
}

/// `PATCH /api/items/{id}`, the path parameter already read.
pub fn update_item_by_id(store: &mut ItemStore, id: Option<u128>, dto: UpdateItemDto) -> (r:
    ApiResponse)
    requires
        old(store).valid(),
    ensures
        final(store).valid(),
        match id {
            None => final(store)@ == old(store)@ && r@ == bad_request(invalid_id_message()),
            Some(u) => {
                let (s, res) = update_result(
                    old(store)@,
                    u,
                    opt_text(dto.name),
                    opt_text(dto.description),
                );
                final(store)@ == s && r@ == item_response(res, 200)
            },
        },
{
    match id {
        None => malformed_request(String::from_str("invalid item id")),
        Some(u) => respond_item(ItemService::update(store, u, dto), 200),
    }
}

/// `PATCH /api/items/{id}`.
pub fn update_item(store: &mut ItemStore, id: &str, dto: UpdateItemDto) -> (r: ApiResponse)
    requires
        old(store).valid(),
    ensures
        final(store).valid(),
        match uuid_of_text(id@) {
            None => final(store)@ == old(store)@ && r@ == bad_request(invalid_id_message()),
            Some(u) => {
                let (s, res) = update_result(
                    old(store)@,
                    u,
                    opt_text(dto.name),
                    opt_text(dto.description),
                );
                final(store)@ == s && r@ == item_response(res, 200)
            },
        },
{
    update_item_by_id(store, parse_uuid(id), dto)
}

/// `DELETE /api/items/{id}`, the path parameter already read.
pub fn delete_item_by_id(store: &mut ItemStore, id: Option<u128>) -> (r: ApiResponse)
    requires
        old(store).valid(),
    ensures
        final(store).valid(),
        match id {
            None => final(store)@ == old(store)@ && r@ == bad_request(invalid_id_message()),
            Some(u) => final(store)@ == delete_result(old(store)@, u).0 && r@ == empty_response(
                delete_result(old(store)@, u).1,
            ),
        },
{
    match id {
        None => malformed_request(String::from_str("invalid item id")),
        Some(u) => match ItemService::delete(store, u) {
            Ok(()) => ApiResponse { status: 204, body: ResponseBody::Empty },
            Err(e) => respond_error(e),
        },
    }
}

/// `DELETE /api/items/{id}`.
pub fn delete_item(store: &mut ItemStore, id: &str) -> (r: ApiResponse)
    requires
        old(store).valid(),
    ensures
        final(store).valid(),
        match uuid_of_text(id@) {
            None => final(store)@ == old(store)@ && r@ == bad_request(invalid_id_message()),
            Some(u) => final(store)@ == delete_result(old(store)@, u).0 && r@ == empty_response(
                delete_result(old(store)@, u).1,
            ),
        },
{
    delete_item_by_id(store, parse_uuid(id))
}

} // verus!
