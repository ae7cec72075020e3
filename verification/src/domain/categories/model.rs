//! Category entity and the commands that create and change it.
//!
//! Identifiers are 128-bit UUID values. Timestamps count microseconds since
//! the Unix epoch, in UTC.

use vstd::prelude::*;

verus! {

/// Mask of the version and variant bits of a UUID held as a 128-bit number.
pub const UUID_FORMAT_MASK: u128 = 0x0000_0000_0000_f000_c000_0000_0000_0000u128;

/// The version and variant bits of a random (version 4) UUID.
pub const UUID_RANDOM_FORMAT: u128 = 0x0000_0000_0000_4000_8000_0000_0000_0000u128;

/// Whether `id` has the shape of a random (version 4, RFC 4122) UUID.
pub open spec fn is_random_id(id: u128) -> bool {
    id & UUID_FORMAT_MASK == UUID_RANDOM_FORMAT
}

/// The timestamp that a category has before storage has set one: the Unix
/// epoch.
pub const DEFAULT_TIMESTAMP: i64 = 0i64;

/// Draws a fresh identifier with `uuid::Uuid::new_v4` and hands it out as
/// the number that `Uuid::as_u128` gives. The value is random; the contract
/// only claims the version and variant bits that `new_v4` always sets.
#[verifier::external_body]
fn random_id() -> (id: u128)
    ensures
        is_random_id(id),
{
    uuid::Uuid::new_v4().as_u128()
}

/// Reads the default instant of `chrono::DateTime<Utc>` as the count that
/// `timestamp_micros` gives. That instant is the Unix epoch, so the
/// contract claims the count 0.
#[verifier::external_body]
fn default_timestamp() -> (timestamp: i64)
    ensures
        timestamp == DEFAULT_TIMESTAMP,
{
    chrono::DateTime::<chrono::Utc>::default().timestamp_micros()
}

/// A random identifier is never the nil UUID.
pub proof fn lemma_random_id_is_not_nil(id: u128)
    requires
        is_random_id(id),
    ensures
        id != 0,
{
    assert(id & 0x0000_0000_0000_f000_c000_0000_0000_0000u128
        == 0x0000_0000_0000_4000_8000_0000_0000_0000u128 ==> id != 0) by (bit_vector);
}

/// View of an optional text.
pub open spec fn text_view(text: Option<String>) -> Option<Seq<char>> {
    match text {
        Some(t) => Some(t@),
        None => None,
    }
}

/// Copies an optional text.
pub fn clone_text(text: &Option<String>) -> (copy: Option<String>)
    ensures
        text_view(copy) == text_view(*text),
{
    match text {
        Some(t) => Some(t.clone()),
        None => None,
    }
}

/// Command to create a category. The identifier is chosen when the command
/// is built, before anything is stored.
#[derive(Debug)]
pub struct CategoryCreateModel {
    pub id: u128,
    pub name: String,
    pub description: Option<String>,
}

/// Mathematical value of a [`CategoryCreateModel`].
pub struct CategoryCreateView {
    pub id: u128,
    pub name: Seq<char>,
    pub description: Option<Seq<char>>,
}

impl View for CategoryCreateModel {
    type V = CategoryCreateView;

    open spec fn view(&self) -> CategoryCreateView {
        CategoryCreateView {
            id: self.id,
            name: self.name@,
            description: text_view(self.description),
        }
    }
}

impl CategoryCreateModel {
    /// Builds a create command with a fresh random identifier.
    pub fn new(name: String, description: Option<String>) -> (command: Self)
        ensures
            is_random_id(command.id),
            command.id != 0,
            command.name == name,
            command.description == description,
    {
        let id: u128 = random_id();
        proof {
            lemma_random_id_is_not_nil(id);
        }
        Self { id, name, description }
    }

    /// A sample command: "Burgers", described as "The Big Burgers", under a
    /// fresh identifier.
    pub fn mock_default() -> (command: Self)
        ensures
            is_random_id(command.id),
            command.id != 0,
            command@.name == "Burgers"@,
            command@.description == Some("The Big Burgers"@),
    {
        Self::new("Burgers".to_owned(), Some("The Big Burgers".to_owned()))
    }
}

impl Clone for CategoryCreateModel {
    fn clone(&self) -> (copy: Self)
        ensures
            copy@ == self@,
    {
        Self { id: self.id, name: self.name.clone(), description: clone_text(&self.description) }
    }
}

/// Command to replace the mutable fields of a category. It names no
/// identifier: the target is addressed beside it.
#[derive(Debug)]
pub struct CategoryUpdateModel {
    pub name: String,
    pub description: Option<String>,
}

/// Mathematical value of a [`CategoryUpdateModel`].
pub struct CategoryUpdateView {
    pub name: Seq<char>,
    pub description: Option<Seq<char>>,
}

impl View for CategoryUpdateModel {
    type V = CategoryUpdateView;

    open spec fn view(&self) -> CategoryUpdateView {
        CategoryUpdateView { name: self.name@, description: text_view(self.description) }
    }
}

impl CategoryUpdateModel {
    /// Builds an update command from the new name and description.
    pub fn new(name: String, description: Option<String>) -> (command: Self)
        ensures
            command.name == name,
            command.description == description,
    {
        Self { name, description }
    }

    /// A sample command: "French fries", described as "The French fries".
    pub fn mock_default() -> (command: Self)
        ensures
            command@.name == "French fries"@,
            command@.description == Some("The French fries"@),
    {
        Self::new("French fries".to_owned(), Some("The French fries".to_owned()))
    }
}

impl Clone for CategoryUpdateModel {
    fn clone(&self) -> (copy: Self)
        ensures
            copy@ == self@,
    {
        Self { name: self.name.clone(), description: clone_text(&self.description) }
    }
}

/// A stored category.
#[derive(Debug)]
pub struct CategoryModel {
    pub id: u128,
    pub name: String,
    pub description: Option<String>,
    pub is_active: bool,
    pub created_at: i64,
    pub updated_at: i64,
}

/// Mathematical value of a [`CategoryModel`]: one row of the category table.
pub struct CategoryView {
    pub id: u128,
    pub name: Seq<char>,
    pub description: Option<Seq<char>>,
    pub is_active: bool,
    pub created_at: i64,
    pub updated_at: i64,
}

impl View for CategoryModel {
    type V = CategoryView;

    open spec fn view(&self) -> CategoryView {
        CategoryView {
            id: self.id,
            name: self.name@,
            description: text_view(self.description),
            is_active: self.is_active,
            created_at: self.created_at,
            updated_at: self.updated_at,
        }
    }
}

impl DeepView for CategoryModel {
    type V = CategoryView;

    open spec fn deep_view(&self) -> CategoryView {
        self@
    }
}

impl CategoryModel {
    /// A sample category: "Burgers", described as "The Big Burgers", active,
    /// under a fresh identifier and with both timestamps at their default.
    pub fn mock_default() -> (category: Self)
        ensures
            is_random_id(category.id),
            category.id != 0,
            category@.name == "Burgers"@,
            category@.description == Some("The Big Burgers"@),
            category.is_active,
            category.created_at == DEFAULT_TIMESTAMP,
            category.updated_at == DEFAULT_TIMESTAMP,
    {
        let id: u128 = random_id();
        proof {
            lemma_random_id_is_not_nil(id);
        }
        Self {
            id,
            name: "Burgers".to_owned(),
            description: Some("The Big Burgers".to_owned()),
            is_active: true,
            created_at: default_timestamp(),
            updated_at: default_timestamp(),
        }
    }
}

impl Clone for CategoryModel {
    fn clone(&self) -> (copy: Self)
        ensures
            copy@ == self@,
    {
        Self {
            id: self.id,
            name: self.name.clone(),
            description: clone_text(&self.description),
            is_active: self.is_active,
            created_at: self.created_at,
            updated_at: self.updated_at,
        }
    }
}

} // verus!
