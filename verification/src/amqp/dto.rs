//! What a message carries.

use crate::domain::categories::model::{clone_text, is_random_id, text_view, CategoryCreateModel};
use vstd::prelude::*;

verus! {

/// Payload of a message that asks for a category to be created.
#[derive(Debug)]
pub struct CategoryMessage {
    pub name: String,
    pub description: Option<String>,
}

/// Mathematical value of a [`CategoryMessage`].
pub struct CategoryMessageView {
    pub name: Seq<char>,
    pub description: Option<Seq<char>>,
}

impl View for CategoryMessage {
    type V = CategoryMessageView;

    open spec fn view(&self) -> CategoryMessageView {
        CategoryMessageView { name: self.name@, description: text_view(self.description) }
    }
}

impl DeepView for CategoryMessage {
    type V = CategoryMessageView;

    open spec fn deep_view(&self) -> CategoryMessageView {
        self@
    }
}

impl Clone for CategoryMessage {
    fn clone(&self) -> (copy: Self)
        ensures
            copy@ == self@,
    {
        Self { name: self.name.clone(), description: clone_text(&self.description) }
    }
}

impl vstd::std_specs::convert::FromSpecImpl<CategoryMessage> for CategoryCreateModel {
    open spec fn obeys_from_spec() -> bool {
        false
    }

    open spec fn from_spec(value: CategoryMessage) -> Self {
        CategoryCreateModel { id: 0, name: value.name, description: value.description }
    }
}

impl From<CategoryMessage> for CategoryCreateModel {
    /// The command that creates what the message describes, under a fresh
    /// random identifier.
    fn from(value: CategoryMessage) -> (command: Self)
        ensures
            is_random_id(command.id),
            command.id != 0,
            command.name == value.name,
            command.description == value.description,
    {
        CategoryCreateModel::new(value.name, value.description)
    }
}

} // verus!
