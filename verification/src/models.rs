//! The records of the command store.
//!
//! A stored command's identifier is carried as the 128-bit value of its
//! UUID, and its timestamps as Unix seconds, so that every field is plain
//! data the contracts can speak about.

use vstd::prelude::*;

verus! {

/// A stored command, as the store returns it.
#[derive(Debug)]
pub struct Command {
    /// The 128-bit value of the record's UUID.
    pub id: u128,
    pub name: String,
    pub description: Option<String>,
    pub command_text: String,
    pub tags: Option<Vec<String>>,
    /// Unix seconds.
    pub created_at: i64,
    /// Unix seconds.
    pub updated_at: i64,
}

/// A command to be added to the store.
#[derive(Debug)]
pub struct NewCommand {
    pub name: String,
    pub description: Option<String>,
    pub command_text: String,
    pub tags: Option<Vec<String>>,
}

/// An update of a stored command, addressed by name; only the `Some`
/// fields change.
#[derive(Debug)]
pub struct UpdateCommand {
    pub name: String,
    pub new_tags: Option<Vec<String>>,
    pub new_description: Option<String>,
    pub new_command_text: Option<String>,
}

/// A new command as a front end hands it over.
#[derive(Debug)]
pub struct CommandDTO {
    pub name: String,
    pub description: Option<String>,
    pub command_text: String,
    pub tags: Option<Vec<String>>,
}

/// An update as a front end hands it over.
#[derive(Debug)]
pub struct UpdateCommandDTO {
    pub name: String,
    pub new_description: Option<String>,
    pub new_command_text: Option<String>,
    pub new_tags: Option<Vec<String>>,
}

impl CommandDTO {
    /// The store's form of the transferred command, field for field.
    pub fn into_new_command(self) -> (c: NewCommand)
        ensures
            c.name == self.name,
            c.description == self.description,
            c.command_text == self.command_text,
            c.tags == self.tags,
    {
        NewCommand {
            name: self.name,
            description: self.description,
            command_text: self.command_text,
            tags: self.tags,
        }
    }
}

impl UpdateCommandDTO {
    /// The store's form of the transferred update, field for field.
    pub fn into_update_command(self) -> (c: UpdateCommand)
        ensures
            c.name == self.name,
            c.new_description == self.new_description,
            c.new_command_text == self.new_command_text,
            c.new_tags == self.new_tags,
    {
        UpdateCommand {
            name: self.name,
            new_tags: self.new_tags,
            new_description: self.new_description,
            new_command_text: self.new_command_text,
        }
    }
}

} // verus!
