use builder_core::ids::parse_id;
use builder_core::{Category, Doc, File, Repository};

fn sample_category() -> Category {
    Category {
        name: "UI Kits".to_string(),
        description: "Reusable interface building blocks".to_string(),
        image: File { name: "a.png".to_string(), src: "/media/uploads/a.png".to_string() },
    }
}

fn other_category() -> Category {
    Category {
        name: "Backends".to_string(),
        description: "Server-side building blocks".to_string(),
        image: File { name: "b.png".to_string(), src: "/media/uploads/b.png".to_string() },
    }
}

#[test]
fn insert_then_find_returns_equal_document() {
    let mut repo: Repository<Category> = Repository::new();
    let id = repo.insert_one(sample_category()).unwrap();
    let found = repo.find_one_by_id(&id).unwrap();
    assert_eq!(*found, sample_category());
}

#[test]
fn absent_ids_yield_absent_not_an_error() {
    let mut repo: Repository<Category> = Repository::new();
    let ghost_id = parse_id("00000000000000000000ffff").unwrap();
    assert!(repo.find_one_by_id(&ghost_id).is_none());
    assert!(repo.update_one(&ghost_id, sample_category()).is_none());
    assert!(repo.delete_one(&ghost_id).is_none());
    assert_eq!(repo.len(), 0);

    let stored = repo.insert_one(sample_category()).unwrap();
    assert!(repo.find_one_by_id(&ghost_id).is_none());
    assert!(repo.update_one(&ghost_id, other_category()).is_none());
    assert!(repo.delete_one(&ghost_id).is_none());
    assert_eq!(repo.len(), 1);
    assert_eq!(*repo.find_one_by_id(&stored).unwrap(), sample_category());
}

#[test]
fn delete_returns_removed_document_and_find_is_then_absent() {
    let mut repo: Repository<Category> = Repository::new();
    let keep = repo.insert_one(sample_category()).unwrap();
    let gone = repo.insert_one(other_category()).unwrap();
    let removed = repo.delete_one(&gone).unwrap();
    assert_eq!(removed, other_category());
    assert!(repo.find_one_by_id(&gone).is_none());
    assert_eq!(repo.len(), 1);
    assert_eq!(*repo.find_one_by_id(&keep).unwrap(), sample_category());
    assert!(repo.delete_one(&gone).is_none());
}

#[test]
fn repeated_identical_update_is_idempotent() {
    let mut repo: Repository<Category> = Repository::new();
    let id = repo.insert_one(sample_category()).unwrap();
    let first = repo.update_one(&id, other_category()).unwrap();
    let after_first = repo.find_one_by_id(&id).unwrap().dup();
    let second = repo.update_one(&id, other_category()).unwrap();
    let after_second = repo.find_one_by_id(&id).unwrap();
    assert_eq!(first, second);
    assert_eq!(after_first, *after_second);
    assert_eq!(*after_second, other_category());
    assert_eq!(repo.len(), 1);
}

#[test]
fn update_replaces_fields_and_keeps_identifier() {
    let mut repo: Repository<Category> = Repository::new();
    let id = repo.insert_one(sample_category()).unwrap();
    let returned = repo.update_one(&id, other_category()).unwrap();
    assert_eq!(returned, other_category());
    assert_eq!(*repo.find_one_by_id(&id).unwrap(), other_category());
}

#[test]
fn generated_identifiers_are_distinct_and_order_is_kept() {
    let mut repo: Repository<Category> = Repository::new();
    let a = repo.insert_one(sample_category()).unwrap();
    let b = repo.insert_one(other_category()).unwrap();
    assert_ne!(a, b);
    let all = repo.find_all();
    assert_eq!(all.len(), 2);
    assert_eq!(all[0].id, a);
    assert_eq!(all[0].doc, sample_category());
    assert_eq!(all[1].id, b);
    assert_eq!(all[1].doc, other_category());
}
