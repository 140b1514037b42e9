//! The typed failures of the store.

use vstd::prelude::*;
use vstd::string::*;

verus! {

/// The input that a validation failure is about.
#[derive(Clone, Copy, Debug, PartialEq, Eq, Structural)]
pub enum Field {
    Name,
    Barcode,
    Price,
}

/// Why an input was refused.
#[derive(Clone, Copy, Debug, PartialEq, Eq, Structural)]
pub enum Reason {
    /// Empty, or white space only.
    Blank,
    /// Not a number greater than zero.
    NotPositive,
    /// Held by another item already.
    AlreadyInUse,
}

/// Bad input: nothing was written.
#[derive(Clone, Copy, Debug, PartialEq, Eq, Structural)]
pub struct ValidationError {
    pub field: Field,
    pub reason: Reason,
}

/// A lookup found nothing under `key`.
#[derive(Debug)]
pub struct NotFoundError {
    pub key: String,
}

/// A saved state whose barcode index does not match its item table.
#[derive(Clone, Copy, Debug, PartialEq, Eq, Structural)]
pub struct IntegrityError {}

/// What a successful write did.
#[derive(Clone, Copy, Debug, PartialEq, Eq, Structural)]
pub enum Confirmation {
    Created,
    Updated,
    Removed,
}

impl ValidationError {
    /// The sentence that tells a user what was wrong.
    pub fn message(&self) -> (r: String)
        ensures
            r@ == match (self.field, self.reason) {
                (Field::Name, Reason::Blank) => "Item name cannot be empty."@,
                (Field::Barcode, Reason::Blank) => "Barcode cannot be empty."@,
                (Field::Barcode, Reason::AlreadyInUse) => "Barcode is already in use."@,
                (Field::Price, _) => "Price must be greater than zero."@,
                (Field::Name, _) => "Item name is not valid."@,
                (Field::Barcode, _) => "Barcode is not valid."@,
            },
    {
        match self.field {
            Field::Name => match self.reason {
                Reason::Blank => String::from_str("Item name cannot be empty."),
                _ => String::from_str("Item name is not valid."),
            },
            Field::Barcode => match self.reason {
                Reason::Blank => String::from_str("Barcode cannot be empty."),
                Reason::AlreadyInUse => String::from_str("Barcode is already in use."),
                _ => String::from_str("Barcode is not valid."),
            },
            Field::Price => String::from_str("Price must be greater than zero."),
        }
    }
}

impl NotFoundError {
    /// The sentence that tells a user which item is missing.
    pub fn message(&self) -> (r: String)
        ensures
            r@ == "Item with ID '"@ + self.key@ + "' not found"@,
    {
        let head = String::from_str("Item with ID '");
        let mid = head.concat(self.key.as_str());
        mid.concat("' not found")
    }

    /// The same for a lookup by barcode.
    pub fn barcode_message(&self) -> (r: String)
        ensures
            r@ == "Item with barcode '"@ + self.key@ + "' not found"@,
    {
        let head = String::from_str("Item with barcode '");
        let mid = head.concat(self.key.as_str());
        mid.concat("' not found")
    }
}

} // verus!
