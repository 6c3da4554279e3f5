use builder_core::categories::{
    CategoryForm, CategoryUpdateForm, add_category, delete_category, get_all_categories,
    get_category_by_id, update_category,
};
use builder_core::prototypes::{
    ConnectionRequest, NodeRequest, PrototypeRequest, add_prototype, delete_prototype,
    get_prototype_by_template_id, update_prototype,
};
use builder_core::{ApiError, CollectionsContainer, File, IdPayload};

fn image(n: &str) -> File {
    File { name: n.to_string(), src: format!("/media/static/uploads/categories/{}", n) }
}

fn ui_kits_form() -> CategoryForm {
    CategoryForm {
        name: Some("UI Kits".to_string()),
        description: Some("Reusable interface building blocks".to_string()),
        image: Some(image("a.png")),
    }
}

#[test]
fn status_codes_are_fixed_per_outcome() {
    assert_eq!(ApiError::Validation.status_code(), 400);
    assert_eq!(ApiError::NotFound.status_code(), 404);
    assert_eq!(ApiError::Internal.status_code(), 500);
}

#[test]
fn created_category_is_returned_with_a_text_identifier() {
    let mut c = CollectionsContainer::new();
    let resp = add_category(&mut c, ui_kits_form()).unwrap();
    assert_eq!(resp.id.len(), 24);
    assert!(resp.id.chars().all(|ch| ch.is_ascii_hexdigit()));
    assert_eq!(resp.name, "UI Kits");
    assert_eq!(resp.description, "Reusable interface building blocks");
    assert_eq!(resp.image, image("a.png"));

    let fetched = get_category_by_id(&c, &IdPayload { id: resp.id.clone() }).unwrap();
    assert_eq!(fetched, resp);
}

#[test]
fn missing_form_fields_fail_validation_without_a_write() {
    let mut c = CollectionsContainer::new();
    let mut form = ui_kits_form();
    form.description = None;
    assert_eq!(add_category(&mut c, form), Err(ApiError::Validation));
    assert_eq!(get_all_categories(&c).len(), 0);

    let mut form = ui_kits_form();
    form.image = None;
    assert_eq!(add_category(&mut c, form), Err(ApiError::Validation));
    assert_eq!(get_all_categories(&c).len(), 0);
}

#[test]
fn category_listing_shows_every_insert_in_order() {
    let mut c = CollectionsContainer::new();
    let first = add_category(&mut c, ui_kits_form()).unwrap();
    let second = add_category(
        &mut c,
        CategoryForm {
            name: Some("Backends".to_string()),
            description: Some("Server-side building blocks".to_string()),
            image: Some(image("b.png")),
        },
    )
    .unwrap();
    let all = get_all_categories(&c);
    assert_eq!(all.len(), 2);
    assert_eq!(all[0], first);
    assert_eq!(all[1], second);
}

#[test]
fn updating_a_category_replaces_its_fields() {
    let mut c = CollectionsContainer::new();
    let created = add_category(&mut c, ui_kits_form()).unwrap();
    let updated = update_category(
        &mut c,
        CategoryUpdateForm {
            id: Some(created.id.clone()),
            name: Some("UI Kits v2".to_string()),
            description: Some("Refreshed kits".to_string()),
            image: Some(image("a2.png")),
        },
    )
    .unwrap();
    assert_eq!(updated.id, created.id);
    assert_eq!(updated.name, "UI Kits v2");
    let fetched = get_category_by_id(&c, &IdPayload { id: created.id.clone() }).unwrap();
    assert_eq!(fetched, updated);
}

#[test]
fn update_with_malformed_or_unknown_identifier_fails_closed() {
    let mut c = CollectionsContainer::new();
    add_category(&mut c, ui_kits_form()).unwrap();
    let malformed = update_category(
        &mut c,
        CategoryUpdateForm {
            id: Some("not-a-valid-identifier!!".to_string()),
            name: Some("x".to_string()),
            description: Some("y".to_string()),
            image: Some(image("z.png")),
        },
    );
    assert_eq!(malformed, Err(ApiError::Validation));

    let unknown = update_category(
        &mut c,
        CategoryUpdateForm {
            id: Some("00000000000000000000ffff".to_string()),
            name: Some("x".to_string()),
            description: Some("y".to_string()),
            image: Some(image("z.png")),
        },
    );
    assert_eq!(unknown, Err(ApiError::NotFound));
}

#[test]
fn deleting_a_category_returns_it_and_then_it_is_gone() {
    let mut c = CollectionsContainer::new();
    let created = add_category(&mut c, ui_kits_form()).unwrap();
    let payload = IdPayload { id: created.id.clone() };
    let removed = delete_category(&mut c, &payload).unwrap();
    assert_eq!(removed, created);
    assert_eq!(get_category_by_id(&c, &payload), Err(ApiError::NotFound));
    assert_eq!(delete_category(&mut c, &payload), Err(ApiError::NotFound));
    assert_eq!(
        delete_category(&mut c, &IdPayload { id: "short".to_string() }),
        Err(ApiError::Validation)
    );
}

fn prototype_request(template_id: &str, feature_id: &str) -> PrototypeRequest {
    PrototypeRequest {
        template_id: template_id.to_string(),
        nodes: vec![NodeRequest {
            feature_id: feature_id.to_string(),
            connections: vec![ConnectionRequest {
                to: feature_id.to_string(),
                relation: "next".to_string(),
            }],
        }],
    }
}

#[test]
fn created_prototype_is_read_back_merged() {
    let mut c = CollectionsContainer::new();
    let template_id = "00000000000000000000eee1";
    let resp = add_prototype(&mut c, &prototype_request(template_id, "00000000000000000000dddd"))
        .unwrap();
    assert_eq!(resp.template_id, template_id);
    assert_eq!(resp.nodes.len(), 1);
    assert_eq!(resp.nodes[0].feature_id, "00000000000000000000dddd");
    assert!(resp.nodes[0].feature.is_none());
    assert_eq!(resp.nodes[0].connections.len(), 1);
    assert_eq!(resp.nodes[0].connections[0].to, "00000000000000000000dddd");
    assert_eq!(resp.nodes[0].connections[0].relation, "next");

    let fetched = get_prototype_by_template_id(&c, &IdPayload { id: template_id.to_string() })
        .unwrap();
    assert_eq!(fetched, resp);
}

#[test]
fn malformed_identifiers_in_a_prototype_request_fail_validation() {
    let mut c = CollectionsContainer::new();
    let bad_template = add_prototype(&mut c, &prototype_request("nope", "00000000000000000000dddd"));
    assert_eq!(bad_template.unwrap_err(), ApiError::Validation);
    let bad_feature = add_prototype(&mut c, &prototype_request("00000000000000000000eee1", "oops"));
    assert_eq!(bad_feature.unwrap_err(), ApiError::Validation);
    let mut bad_connection = prototype_request("00000000000000000000eee1", "00000000000000000000dddd");
    bad_connection.nodes[0].connections[0].to = "broken".to_string();
    assert_eq!(add_prototype(&mut c, &bad_connection).unwrap_err(), ApiError::Validation);
    assert_eq!(
        get_prototype_by_template_id(&c, &IdPayload { id: "00000000000000000000eee1".to_string() }),
        Err(ApiError::NotFound)
    );
}

#[test]
fn last_prototype_of_a_template_wins_on_lookup() {
    let mut c = CollectionsContainer::new();
    let template_id = "00000000000000000000eee1";
    add_prototype(&mut c, &prototype_request(template_id, "00000000000000000000dddd")).unwrap();
    let second = add_prototype(&mut c, &prototype_request(template_id, "00000000000000000000ddde"))
        .unwrap();
    let fetched = get_prototype_by_template_id(&c, &IdPayload { id: template_id.to_string() })
        .unwrap();
    assert_eq!(fetched, second);
}

#[test]
fn updating_a_prototype_replaces_the_templates_last_prototype() {
    let mut c = CollectionsContainer::new();
    let template_id = "00000000000000000000eee1";
    let missing = update_prototype(&mut c, &prototype_request(template_id, "00000000000000000000dddd"));
    assert_eq!(missing.unwrap_err(), ApiError::NotFound);

    let created = add_prototype(&mut c, &prototype_request(template_id, "00000000000000000000dddd"))
        .unwrap();
    let updated = update_prototype(&mut c, &prototype_request(template_id, "00000000000000000000ddde"))
        .unwrap();
    assert_eq!(updated.id, created.id);
    assert_eq!(updated.nodes[0].feature_id, "00000000000000000000ddde");
    let fetched = get_prototype_by_template_id(&c, &IdPayload { id: template_id.to_string() })
        .unwrap();
    assert_eq!(fetched, updated);
}

#[test]
fn deleting_a_prototype_returns_its_identifiers_and_then_it_is_gone() {
    let mut c = CollectionsContainer::new();
    let template_id = "00000000000000000000eee1";
    let created = add_prototype(&mut c, &prototype_request(template_id, "00000000000000000000dddd"))
        .unwrap();
    let removed = delete_prototype(&mut c, &IdPayload { id: created.id.clone() }).unwrap();
    assert_eq!(removed.id, created.id);
    assert_eq!(removed.template_id, template_id);
    assert_eq!(
        get_prototype_by_template_id(&c, &IdPayload { id: template_id.to_string() }),
        Err(ApiError::NotFound)
    );
    assert_eq!(
        delete_prototype(&mut c, &IdPayload { id: created.id }),
        Err(ApiError::NotFound)
    );
}

#[test]
fn feature_without_wireframes_answers_with_an_empty_list() {
    let mut c = CollectionsContainer::new();
    let feature = builder_core::Feature {
        name: "login".to_string(),
        description: "login support".to_string(),
        feature_type: "module".to_string(),
        image: image("f.png"),
        wireframes: None,
        price: 1500,
        repo: "https://example.invalid/repo.git".to_string(),
    };
    let id = c.feature.insert_one(feature).unwrap();
    let stored = c.feature.find_one_by_id(&id).unwrap();
    let resp = builder_core::response::build_feature(&id, stored);
    assert_eq!(resp.wireframes, vec![]);
    assert_eq!(resp.price, 1500);
}
