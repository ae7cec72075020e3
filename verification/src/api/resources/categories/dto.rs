//! What category requests carry and what category replies show.

use crate::api::config::Config;
use crate::api::utils::validator::{
    reports, validate_length, DESCRIPTION_MAX_LENGTH, NAME_MAX_LENGTH,
};
use crate::domain::categories::model::{
    clone_text, is_random_id, text_view, CategoryCreateModel, CategoryModel, CategoryUpdateModel,
    CategoryView,
};
use crate::domain::error::DomainError;
use vstd::prelude::*;

verus! {

/// The rule that name and description of a category are held to: a name
/// of 1 to 64 characters and a description, if any, of at most 512. Where
/// both are broken the name's is told.
pub open spec fn body_violation(name: Seq<char>, description: Option<Seq<char>>) -> Option<
    Seq<char>,
> {
    if name.len() < 1 || name.len() > NAME_MAX_LENGTH {
        Some("name must have between 1 and 64 characters"@)
    } else if description is Some && description->0.len() > DESCRIPTION_MAX_LENGTH {
        Some("description must have at most 512 characters"@)
    } else {
        None
    }
}

/// Checks name and description against [`body_violation`].
pub fn validate_body(name: &String, description: &Option<String>) -> (result: Result<
    (),
    DomainError,
>)
    ensures
        reports(result, body_violation(name@, text_view(*description))),
{
    let name_length: usize = name.as_str().unicode_len();
    if name_length < 1 || name_length > NAME_MAX_LENGTH {
        return Err(
            DomainError::BadRequest("name must have between 1 and 64 characters".to_owned()),
        );
    }
    match description {
        Some(text) => {
            if !validate_length(text.as_str(), DESCRIPTION_MAX_LENGTH) {
                return Err(
                    DomainError::BadRequest(
                        "description must have at most 512 characters".to_owned(),
                    ),
                );
            }
        },
        None => {},
    }
    Ok(())
}

/// Body of a request to create a category.
#[derive(Debug)]
pub struct RequestCreateCategory {
    pub name: String,
    pub description: Option<String>,
}

impl RequestCreateCategory {
    /// A sample body: "Burgers", described as "The Big Burgers".
    pub fn mock_default() -> (body: Self)
        ensures
            body.name@ == "Burgers"@,
            text_view(body.description) == Some("The Big Burgers"@),
    {
        Self { name: "Burgers".to_owned(), description: Some("The Big Burgers".to_owned()) }
    }

    /// Checks the body against [`body_violation`].
    pub fn validate(&self) -> (result: Result<(), DomainError>)
        ensures
            reports(result, body_violation(self.name@, text_view(self.description))),
    {
        validate_body(&self.name, &self.description)
    }
}

impl Clone for RequestCreateCategory {
    fn clone(&self) -> (copy: Self)
        ensures
            copy.name@ == self.name@,
            text_view(copy.description) == text_view(self.description),
    {
        Self { name: self.name.clone(), description: clone_text(&self.description) }
    }
}

impl vstd::std_specs::convert::FromSpecImpl<RequestCreateCategory> for CategoryCreateModel {
    open spec fn obeys_from_spec() -> bool {
        false
    }

    open spec fn from_spec(value: RequestCreateCategory) -> Self {
        CategoryCreateModel { id: 0, name: value.name, description: value.description }
    }
}

impl From<RequestCreateCategory> for CategoryCreateModel {
    /// The command that creates what the body describes, under a fresh
    /// random identifier.
    fn from(value: RequestCreateCategory) -> (command: Self)
        ensures
            is_random_id(command.id),
            command.id != 0,
            command.name == value.name,
            command.description == value.description,
    {
        CategoryCreateModel::new(value.name, value.description)
    }
}

/// Body of a request to update a category.
#[derive(Debug)]
pub struct RequestUpdateCategory {
    pub name: String,
    pub description: Option<String>,
}

impl RequestUpdateCategory {
    /// A sample body: "French fries", described as "The French fries".
    pub fn mock_default() -> (body: Self)
        ensures
            body.name@ == "French fries"@,
            text_view(body.description) == Some("The French fries"@),
    {
        Self {
            name: "French fries".to_owned(),
            description: Some("The French fries".to_owned()),
        }
    }

    /// The same body under another name.
    pub fn with_name(self, name: &str) -> (body: Self)
        ensures
            body.name@ == name@,
            body.description == self.description,
    {
        let mut body = self;
        body.name = name.to_owned();
        body
    }

    /// Checks the body against [`body_violation`].
    pub fn validate(&self) -> (result: Result<(), DomainError>)
        ensures
            reports(result, body_violation(self.name@, text_view(self.description))),
    {
        validate_body(&self.name, &self.description)
    }
}

impl Clone for RequestUpdateCategory {
    fn clone(&self) -> (copy: Self)
        ensures
            copy.name@ == self.name@,
            text_view(copy.description) == text_view(self.description),
    {
        Self { name: self.name.clone(), description: clone_text(&self.description) }
    }
}

impl vstd::std_specs::convert::FromSpecImpl<RequestUpdateCategory> for CategoryUpdateModel {
    open spec fn obeys_from_spec() -> bool {
        true
    }

    open spec fn from_spec(value: RequestUpdateCategory) -> Self {
        CategoryUpdateModel { name: value.name, description: value.description }
    }
}

impl From<RequestUpdateCategory> for CategoryUpdateModel {
    /// The command that applies what the body describes.
    fn from(value: RequestUpdateCategory) -> (command: Self) {
        CategoryUpdateModel::new(value.name, value.description)
    }
}

/// Query of a request to search categories.
#[derive(Debug)]
pub struct RequestFindCategories {
    pub name: Option<String>,
    pub page: Option<u32>,
    pub page_size: Option<u32>,
}

/// The rule that a search query is held to: a name to search for of at
/// most 64 characters, a page number of at least 1, and a page size that
/// the settings allow. The first rule broken, in this order, is told.
pub open spec fn query_violation(
    name: Option<Seq<char>>,
    page: Option<u32>,
    page_size: Option<u32>,
    page_size_max: u32,
) -> Option<Seq<char>> {
    if name is Some && name->0.len() > NAME_MAX_LENGTH {
        Some("name must have at most 64 characters"@)
    } else if page == Some(0u32) {
        Some("page must be at least 1"@)
    } else if page_size is Some && page_size->0 > page_size_max {
        Some("page_size greater than the max"@)
    } else {
        None
    }
}

impl RequestFindCategories {
    /// Checks the query against [`query_violation`]. A page size above the
    /// allowed maximum is refused whatever else the query holds.
    pub fn validate(&self, config: &Config) -> (result: Result<(), DomainError>)
        ensures
            reports(
                result,
                query_violation(
                    text_view(self.name),
                    self.page,
                    self.page_size,
                    config.page_size_max,
                ),
            ),
            self.page_size matches Some(page_size) && page_size > config.page_size_max
                ==> result is Err,
    {
        match &self.name {
            Some(name) => {
                if !validate_length(name.as_str(), NAME_MAX_LENGTH) {
                    return Err(
                        DomainError::BadRequest("name must have at most 64 characters".to_owned()),
                    );
                }
            },
            None => {},
        }
        match self.page {
            Some(page) => {
                if page == 0 {
                    return Err(DomainError::BadRequest("page must be at least 1".to_owned()));
                }
            },
            None => {},
        }
        match self.page_size {
            Some(page_size) => crate::api::utils::validator::validate_page_size_max(
                page_size,
                config,
            ),
            None => Ok(()),
        }
    }
}

impl Clone for RequestFindCategories {
    fn clone(&self) -> (copy: Self)
        ensures
            text_view(copy.name) == text_view(self.name),
            copy.page == self.page,
            copy.page_size == self.page_size,
    {
        Self { name: clone_text(&self.name), page: self.page, page_size: self.page_size }
    }
}

/// A category as replies show it.
#[derive(Debug)]
pub struct ResponseCategory {
    pub id: u128,
    pub name: String,
    pub description: Option<String>,
    pub is_active: bool,
    pub created_at: i64,
    pub updated_at: i64,
}

impl View for ResponseCategory {
    type V = CategoryView;

    open spec fn view(&self) -> CategoryView {
        CategoryView {
            id: self.id,
            name: self.name@,
            description: text_view(self.description),
            is_active: self.is_active,
            created_at: self.created_at,
            updated_at: self.updated_at,
        }
    }
}

impl DeepView for ResponseCategory {
    type V = CategoryView;

    open spec fn deep_view(&self) -> CategoryView {
        self@
    }
}

impl vstd::std_specs::convert::FromSpecImpl<CategoryModel> for ResponseCategory {
    open spec fn obeys_from_spec() -> bool {
        true
    }

    open spec fn from_spec(value: CategoryModel) -> Self {
        ResponseCategory {
            id: value.id,
            name: value.name,
            description: value.description,
            is_active: value.is_active,
            created_at: value.created_at,
            updated_at: value.updated_at,
        }
    }
}

impl From<CategoryModel> for ResponseCategory {
    /// Shows every field of the category as it is stored.
    fn from(value: CategoryModel) -> (response: Self)
        ensures
            response@ == value@,
    {
        Self {
            id: value.id,
            name: value.name,
            description: value.description,
            is_active: value.is_active,
            created_at: value.created_at,
            updated_at: value.updated_at,
        }
    }
}

} // verus!
