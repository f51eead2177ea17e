use item_service::{
    create_item, delete_item, get_item, health_check, list_items, root, update_item, AppError,
    CreateItemDto, Item, ItemService, ItemStore, ResponseBody, UpdateItemDto,
};

fn create_dto(name: &str, description: Option<&str>) -> CreateItemDto {
    CreateItemDto { name: name.to_string(), description: description.map(|d| d.to_string()) }
}

fn created(store: &mut ItemStore, name: &str, description: Option<&str>) -> Item {
    let r = create_item(store, create_dto(name, description));
    assert_eq!(r.status, 201);
    match r.body {
        ResponseBody::Item(item) => item,
        _ => panic!("expected an item body"),
    }
}

fn id_text(id: u128) -> String {
    uuid::Uuid::from_u128(id).to_string()
}

fn listed(store: &ItemStore) -> Vec<Item> {
    let r = list_items(store);
    assert_eq!(r.status, 200);
    match r.body {
        ResponseBody::Items(items) => items,
        _ => panic!("expected an array body"),
    }
}

fn error_text(body: &ResponseBody) -> String {
    match body {
        ResponseBody::Error(m) => m.clone(),
        _ => panic!("expected an error body"),
    }
}

#[test]
fn test_create_item() {
    let mut store = ItemStore::new();
    let r = create_item(&mut store, create_dto("Test Item", Some("A test")));
    assert_eq!(r.status, 201);
    let item = match r.body {
        ResponseBody::Item(item) => item,
        _ => panic!("expected an item body"),
    };
    assert_eq!(item.name, "Test Item");
    let text = id_text(item.id);
    assert_eq!(text.len(), 36);
    assert_eq!(uuid::Uuid::parse_str(&text).unwrap().as_u128(), item.id);
}

#[test]
fn test_list_items() {
    let mut store = ItemStore::new();
    let item = created(&mut store, "Test Item", Some("A test"));
    let r = list_items(&store);
    assert_eq!(r.status, 200);
    match r.body {
        ResponseBody::Items(items) => {
            assert_eq!(items.len(), 1);
            assert_eq!(items[0].id, item.id);
            assert_eq!(items[0].name, "Test Item");
        }
        _ => panic!("expected an array body"),
    }
}

#[test]
fn test_get_nonexistent_returns_404() {
    let mut store = ItemStore::new();
    created(&mut store, "Test Item", Some("A test"));
    let r = get_item(&store, "00000000-0000-0000-0000-000000000000");
    assert_eq!(r.status, 404);
    assert_eq!(error_text(&r.body), "item not found");
}

#[test]
fn created_item_is_fetched_unchanged() {
    let mut store = ItemStore::new();
    let item = created(&mut store, "Lamp", Some("brass"));
    assert_eq!(item.name, "Lamp");
    assert_eq!(item.description.as_deref(), Some("brass"));
    let r = get_item(&store, &id_text(item.id));
    assert_eq!(r.status, 200);
    match r.body {
        ResponseBody::Item(got) => {
            assert_eq!(got.id, item.id);
            assert_eq!(got.name, "Lamp");
            assert_eq!(got.description.as_deref(), Some("brass"));
        }
        _ => panic!("expected an item body"),
    }
}

#[test]
fn created_item_without_description() {
    let mut store = ItemStore::new();
    let item = created(&mut store, "Chair", None);
    assert_eq!(item.description, None);
}

#[test]
fn fresh_ids_are_version_four_and_distinct() {
    let mut store = ItemStore::new();
    let a = created(&mut store, "a", None);
    let b = created(&mut store, "b", None);
    assert_ne!(a.id, b.id);
    assert_ne!(a.id, 0);
    assert_eq!(uuid::Uuid::from_u128(a.id).get_version_num(), 4);
    assert_eq!(listed(&store).len(), 2);
}

#[test]
fn empty_name_is_rejected_and_not_stored() {
    let mut store = ItemStore::new();
    created(&mut store, "kept", None);
    let r = create_item(&mut store, create_dto("", Some("x")));
    assert_eq!(r.status, 400);
    assert_eq!(error_text(&r.body), "name is required");
    assert_eq!(listed(&store).len(), 1);
}

#[test]
fn whitespace_name_is_rejected_and_not_stored() {
    let mut store = ItemStore::new();
    let r = create_item(&mut store, create_dto(" \t\n\u{3000}", None));
    assert_eq!(r.status, 400);
    assert_eq!(listed(&store).len(), 0);
}

#[test]
fn service_create_with_blank_name_is_validation() {
    let mut store = ItemStore::new();
    let r = ItemService::create(&mut store, create_dto("   ", None));
    assert!(matches!(r, Err(AppError::Validation(_))));
}

#[test]
fn create_with_taken_id_is_persistence_error() {
    let mut store = ItemStore::new();
    let first = ItemService::create_with_id(&mut store, create_dto("one", None), 42);
    assert!(first.is_ok());
    let second = ItemService::create_with_id(&mut store, create_dto("two", None), 42);
    match second {
        Err(e) => {
            assert_eq!(e.status_code(), 500);
            assert_eq!(e.message(), "item id already in use");
        }
        Ok(_) => panic!("expected a persistence error"),
    }
    assert_eq!(ItemService::list(&store).len(), 1);
    assert_eq!(ItemService::get_by_id(&store, 42).unwrap().name, "one");
}

#[test]
fn unknown_id_is_not_found() {
    let store = ItemStore::new();
    let r = get_item(&store, "550e8400-e29b-41d4-a716-446655440000");
    assert_eq!(r.status, 404);
    assert!(matches!(ItemService::get_by_id(&store, 5), Err(AppError::NotFound(5))));
}

#[test]
fn malformed_id_is_bad_request() {
    let mut store = ItemStore::new();
    created(&mut store, "x", None);
    let r = get_item(&store, "not-a-uuid");
    assert_eq!(r.status, 400);
    assert_eq!(error_text(&r.body), "invalid item id");
    let r = delete_item(&mut store, "123");
    assert_eq!(r.status, 400);
    assert_eq!(listed(&store).len(), 1);
    let patch = UpdateItemDto { name: Some("y".to_string()), description: None };
    assert_eq!(update_item(&mut store, "", patch).status, 400);
}

#[test]
fn id_is_read_in_other_uuid_forms() {
    let mut store = ItemStore::new();
    let item = created(&mut store, "x", None);
    let simple = uuid::Uuid::from_u128(item.id).simple().to_string();
    assert_eq!(get_item(&store, &simple).status, 200);
    let upper = id_text(item.id).to_uppercase();
    assert_eq!(get_item(&store, &upper).status, 200);
}

#[test]
fn description_patch_keeps_name() {
    let mut store = ItemStore::new();
    let item = created(&mut store, "Desk", Some("oak"));
    let patch = UpdateItemDto { name: None, description: Some("pine".to_string()) };
    let r = update_item(&mut store, &id_text(item.id), patch);
    assert_eq!(r.status, 200);
    match r.body {
        ResponseBody::Item(got) => {
            assert_eq!(got.id, item.id);
            assert_eq!(got.name, "Desk");
            assert_eq!(got.description.as_deref(), Some("pine"));
        }
        _ => panic!("expected an item body"),
    }
    let stored = ItemService::get_by_id(&store, item.id).unwrap();
    assert_eq!(stored.name, "Desk");
    assert_eq!(stored.description.as_deref(), Some("pine"));
}

#[test]
fn name_patch_keeps_description() {
    let mut store = ItemStore::new();
    let item = created(&mut store, "Desk", Some("oak"));
    let patch = UpdateItemDto { name: Some("Table".to_string()), description: None };
    let got = ItemService::update(&mut store, item.id, patch).unwrap();
    assert_eq!(got.name, "Table");
    assert_eq!(got.description.as_deref(), Some("oak"));
}

#[test]
fn empty_name_patch_is_rejected_and_record_kept() {
    let mut store = ItemStore::new();
    let item = created(&mut store, "Desk", Some("oak"));
    let patch = UpdateItemDto { name: Some(String::new()), description: Some("new".to_string()) };
    let r = update_item(&mut store, &id_text(item.id), patch);
    assert_eq!(r.status, 400);
    assert_eq!(error_text(&r.body), "name is required");
    let stored = ItemService::get_by_id(&store, item.id).unwrap();
    assert_eq!(stored.name, "Desk");
    assert_eq!(stored.description.as_deref(), Some("oak"));
}

#[test]
fn patch_of_missing_item_is_not_found_before_validation() {
    let mut store = ItemStore::new();
    let patch = UpdateItemDto { name: Some(String::new()), description: None };
    let r = ItemService::update(&mut store, 9, patch);
    assert!(matches!(r, Err(AppError::NotFound(9))));
}

#[test]
fn second_delete_is_not_found() {
    let mut store = ItemStore::new();
    let item = created(&mut store, "Gone", None);
    let keep = created(&mut store, "Stays", None);
    let text = id_text(item.id);
    let first = delete_item(&mut store, &text);
    assert_eq!(first.status, 204);
    assert!(matches!(first.body, ResponseBody::Empty));
    let second = delete_item(&mut store, &text);
    assert_eq!(second.status, 404);
    let left = listed(&store);
    assert_eq!(left.len(), 1);
    assert_eq!(left[0].id, keep.id);
}

#[test]
fn list_of_empty_store_is_empty() {
    let store = ItemStore::new();
    assert_eq!(listed(&store).len(), 0);
    assert_eq!(store.len(), 0);
}

#[test]
fn list_keeps_creation_order() {
    let mut store = ItemStore::new();
    created(&mut store, "first", None);
    created(&mut store, "second", None);
    created(&mut store, "third", None);
    let names: Vec<String> = listed(&store).into_iter().map(|i| i.name).collect();
    assert_eq!(names, vec!["first", "second", "third"]);
}

#[test]
fn health_and_root_answer_ok() {
    let h = health_check();
    assert_eq!(h.status, 200);
    assert!(matches!(h.body, ResponseBody::Health));
    let r = root();
    assert_eq!(r.status, 200);
    assert!(matches!(r.body, ResponseBody::Service));
}

#[test]
fn error_statuses_and_messages() {
    let v = AppError::Validation("bad".to_string());
    assert_eq!(v.status_code(), 400);
    assert_eq!(v.message(), "bad");
    let n = AppError::NotFound(3);
    assert_eq!(n.status_code(), 404);
    assert_eq!(n.message(), "item not found");
    let p = AppError::Persistence("down".to_string());
    assert_eq!(p.status_code(), 500);
    assert_eq!(p.message(), "down");
    let r = item_service::respond_error(AppError::NotFound(1));
    assert_eq!(r.status, 404);
    assert_eq!(error_text(&r.body), "item not found");
}

#[test]
fn malformed_body_is_bad_request() {
    let r = item_service::malformed_request("expected value".to_string());
    assert_eq!(r.status, 400);
    assert_eq!(error_text(&r.body), "expected value");
}

#[test]
fn blank_text_follows_unicode_white_space() {
    assert!(item_service::is_blank_text(""));
    assert!(item_service::is_blank_text(" \t\r\n\u{a0}\u{2003}\u{85}"));
    assert!(!item_service::is_blank_text(" a "));
    assert!(!item_service::is_blank_text("\u{200b}"));
    assert!(item_service::is_white_space_char('\u{205f}'));
    assert!(!item_service::is_white_space_char('x'));
}

#[test]
fn scenario_create_list_and_missing() {
    let mut store = ItemStore::new();
    let item = created(&mut store, "Test Item", Some("A test"));
    assert_eq!(item.name, "Test Item");
    assert_eq!(id_text(item.id).len(), 36);
    let items = listed(&store);
    assert!(items.iter().any(|i| i.id == item.id && i.name == "Test Item"));
    let r = get_item(&store, "00000000-0000-0000-0000-000000000000");
    assert_eq!(r.status, 404);
}
