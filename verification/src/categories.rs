//! Category request handlers.
//!
//! Each handler takes the decoded request — for the multipart endpoints a
//! form whose fields are present or absent — validates it, runs the store
//! operations the endpoint calls for, and shapes the result for the wire.
//! A missing form field or a malformed identifier fails closed with a
//! validation outcome; an identifier that resolves to nothing is not found.

use vstd::prelude::*;

use crate::api::{ApiError, IdPayload};
use crate::container::CollectionsContainer;
use crate::entities::{Category, CategoryV, File};
use crate::ids::{Id, parse_id, parse_id_str};
use crate::repo::{Entry, map_of, removed, updated};
use crate::response::{CategoryResponse, build_category, build_category_v};

verus! {

/// The decoded multipart form of a category create request. A field the
/// request did not carry (or whose upload failed) is absent.
#[derive(Debug, PartialEq, Eq)]
pub struct CategoryForm {
    pub name: Option<String>,
    pub description: Option<String>,
    pub image: Option<File>,
}

/// The decoded multipart form of a category update request.
#[derive(Debug, PartialEq, Eq)]
pub struct CategoryUpdateForm {
    pub id: Option<String>,
    pub name: Option<String>,
    pub description: Option<String>,
    pub image: Option<File>,
}

/// The category document a complete create form describes; an incomplete
/// form describes none.
pub open spec fn category_of_form(f: CategoryForm) -> Option<CategoryV> {
    match (f.name, f.description, f.image) {
        (Some(n), Some(d), Some(img)) => Some(
            CategoryV { name: n@, description: d@, image: img@ },
        ),
        _ => None,
    }
}

/// The identifier text and category document a complete update form
/// carries; an incomplete form carries none.
pub open spec fn category_of_update_form(f: CategoryUpdateForm) -> Option<(Seq<char>, CategoryV)> {
    match (f.id, f.name, f.description, f.image) {
        (Some(i), Some(n), Some(d), Some(img)) => Some(
            (i@, CategoryV { name: n@, description: d@, image: img@ }),
        ),
        _ => None,
    }
}

/// List every category, shaped for the wire, in insertion order.
pub fn get_all_categories(c: &CollectionsContainer) -> (r: Vec<CategoryResponse>)
    requires
        c.inv(),
    ensures
        r@.map_values(|x: CategoryResponse| x@) == c.category.model().map_values(
            |p: (Id, CategoryV)| build_category_v(p.0, p.1),
        ),
{
    let mut r: Vec<CategoryResponse> = Vec::new();
    let entries = c.category.find_all();
    let mut i: usize = 0;
    while i < entries.len()
        invariant
            i <= entries@.len(),
            entries@.map_values(|e: Entry<Category>| e@) == c.category.model(),
            r@.len() == i,
            forall|j: int|
                0 <= j < i ==> r@[j]@ == build_category_v(
                    c.category.model()[j].0,
                    c.category.model()[j].1,
                ),
        decreases entries@.len() - i,
    {
        proof {
            assert(c.category.model()[i as int] == entries@[i as int]@);
        }
        r.push(build_category(&entries[i].id, &entries[i].doc));
        i = i + 1;
    }
    proof {
        assert(r@.map_values(|x: CategoryResponse| x@) =~= c.category.model().map_values(
            |p: (Id, CategoryV)| build_category_v(p.0, p.1),
        ));
    }
    r
}

/// Create a category from a decoded form, then answer with the stored
/// document read back, shaped for the wire. An incomplete form fails
/// validation; only an exhausted store fails internally.
pub fn add_category(c: &mut CollectionsContainer, form: CategoryForm) -> (r: Result<
    CategoryResponse,
    ApiError,
>)
    requires
        old(c).inv(),
    ensures
        final(c).inv(),
        final(c).feature == old(c).feature,
        final(c).project == old(c).project,
        final(c).prototype == old(c).prototype,
        final(c).template == old(c).template,
        match category_of_form(form) {
            None => r == Err::<CategoryResponse, ApiError>(ApiError::Validation) && final(c).category.model() == old(c).category.model(),
            Some(cat) => {
                if old(c).category.can_insert() {
                    &&& final(c).category.model() == old(c).category.model().push(
                        (final(c).category.model().last().0, cat),
                    )
                    &&& r matches Ok(resp) && resp@ == build_category_v(
                        final(c).category.model().last().0,
                        cat,
                    )
                } else {
                    r == Err::<CategoryResponse, ApiError>(ApiError::Internal) && final(c).category.model() == old(c).category.model()
                }
            },
        },
{
    let name = match form.name {
        Some(n) => n,
        None => {
            return Err(ApiError::Validation);
        },
    };
    let description = match form.description {
        Some(d) => d,
        None => {
            return Err(ApiError::Validation);
        },
    };
    let image = match form.image {
        Some(img) => img,
        None => {
            return Err(ApiError::Validation);
        },
    };
    let doc = Category { name, description, image };
    let id = match c.category.insert_one(doc) {
        Ok(id) => id,
        Err(_) => {
            return Err(ApiError::Internal);
        },
    };
    match c.category.find_one_by_id(&id) {
        Some(stored) => Ok(build_category(&id, stored)),
        None => {
            proof {
                assert(false);
            }
            Err(ApiError::Internal)
        },
    }
}

/// Replace a category's fields from a decoded form, keeping its identifier,
/// and answer with the post-update document shaped for the wire. An
/// incomplete form or a malformed identifier fails validation; an unknown
/// identifier is not found.
pub fn update_category(c: &mut CollectionsContainer, form: CategoryUpdateForm) -> (r: Result<
    CategoryResponse,
    ApiError,
>)
    requires
        old(c).inv(),
    ensures
        final(c).inv(),
        final(c).feature == old(c).feature,
        final(c).project == old(c).project,
        final(c).prototype == old(c).prototype,
        final(c).template == old(c).template,
        match category_of_update_form(form) {
            None => r == Err::<CategoryResponse, ApiError>(ApiError::Validation) && final(c).category.model() == old(c).category.model(),
            Some((id_text, cat)) => match parse_id_str(id_text) {
                None => r == Err::<CategoryResponse, ApiError>(ApiError::Validation) && final(c).category.model() == old(c).category.model(),
                Some(id) => {
                    if map_of(old(c).category.model()).contains_key(id) {
                        &&& r matches Ok(resp) && resp@ == build_category_v(id, cat)
                        &&& final(c).category.model() == updated(old(c).category.model(), id, cat)
                        &&& map_of(final(c).category.model()) == map_of(
                            old(c).category.model(),
                        ).insert(id, cat)
                    } else {
                        r == Err::<CategoryResponse, ApiError>(ApiError::NotFound) && final(c).category.model() == old(c).category.model()
                    }
                },
            },
        },
{
    let id_text = match form.id {
        Some(s) => s,
        None => {
            return Err(ApiError::Validation);
        },
    };
    let name = match form.name {
        Some(n) => n,
        None => {
            return Err(ApiError::Validation);
        },
    };
    let description = match form.description {
        Some(d) => d,
        None => {
            return Err(ApiError::Validation);
        },
    };
    let image = match form.image {
        Some(img) => img,
        None => {
            return Err(ApiError::Validation);
        },
    };
    let id = match parse_id(id_text.as_str()) {
        Some(id) => id,
        None => {
            return Err(ApiError::Validation);
        },
    };
    let doc = Category { name, description, image };
    match c.category.update_one(&id, doc) {
        Some(stored) => Ok(build_category(&id, &stored)),
        None => Err(ApiError::NotFound),
    }
}

/// Look one category up by its text identifier and answer with it shaped
/// for the wire. A malformed identifier fails validation; an unknown one is
/// not found.
pub fn get_category_by_id(c: &CollectionsContainer, payload: &IdPayload) -> (r: Result<
    CategoryResponse,
    ApiError,
>)
    requires
        c.inv(),
    ensures
        match parse_id_str(payload.id@) {
            None => r == Err::<CategoryResponse, ApiError>(ApiError::Validation),
            Some(id) => {
                if map_of(c.category.model()).contains_key(id) {
                    r matches Ok(resp) && resp@ == build_category_v(
                        id,
                        map_of(c.category.model())[id],
                    )
                } else {
                    r == Err::<CategoryResponse, ApiError>(ApiError::NotFound)
                }
            },
        },
{
    let id = match parse_id(payload.id.as_str()) {
        Some(id) => id,
        None => {
            return Err(ApiError::Validation);
        },
    };
    match c.category.find_one_by_id(&id) {
        Some(stored) => Ok(build_category(&id, stored)),
        None => Err(ApiError::NotFound),
    }
}

/// Remove one category by its text identifier and answer with the removed
/// document shaped for the wire. After this, a lookup of the same
/// identifier resolves to nothing.
pub fn delete_category(c: &mut CollectionsContainer, payload: &IdPayload) -> (r: Result<
    CategoryResponse,
    ApiError,
>)
    requires
        old(c).inv(),
    ensures
        final(c).inv(),
        final(c).feature == old(c).feature,
        final(c).project == old(c).project,
        final(c).prototype == old(c).prototype,
        final(c).template == old(c).template,
        match parse_id_str(payload.id@) {
            None => r == Err::<CategoryResponse, ApiError>(ApiError::Validation) && final(c).category.model() == old(c).category.model(),
            Some(id) => {
                if map_of(old(c).category.model()).contains_key(id) {
                    &&& r matches Ok(resp) && resp@ == build_category_v(
                        id,
                        map_of(old(c).category.model())[id],
                    )
                    &&& final(c).category.model() == removed(old(c).category.model(), id)
                    &&& !map_of(final(c).category.model()).contains_key(id)
                } else {
                    r == Err::<CategoryResponse, ApiError>(ApiError::NotFound) && final(c).category.model() == old(c).category.model()
                }
            },
        },
{
    let id = match parse_id(payload.id.as_str()) {
        Some(id) => id,
        None => {
            return Err(ApiError::Validation);
        },
    };
    match c.category.delete_one(&id) {
        Some(stored) => Ok(build_category(&id, &stored)),
        None => Err(ApiError::NotFound),
    }
}

} // verus!
