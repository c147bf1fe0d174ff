use vstd::prelude::*;
use crate::render::{decimal_text, push_decimal};

verus! {

/// Why no conversion can be derived for a declaration.
#[derive(Debug, PartialEq, Eq)]
pub enum DeriveError {
    /// The total conversion was asked for, and this variant has an explicit
    /// discriminant.
    Discriminant { variant: String },
    /// This variant carries a payload.
    NonUnitVariant { variant: String },
    /// An enum without a `repr(...)` attribute.
    MissingRepr,
    /// The `repr(...)` attribute names no integer type.
    NoIntegerRepr,
    /// The total conversion was asked for on a struct.
    FromOnStruct,
    /// A struct with other than one field.
    FieldCount { found: usize },
}

impl DeriveError {
    /// The rule that the error reports, in words.
    pub open spec fn spec_message(&self, subject: Seq<char>) -> Seq<char> {
        match self {
            DeriveError::Discriminant { variant } => "Cannot derive From due to "@ + subject + "::"@
                + variant@ + " discriminant"@,
            DeriveError::NonUnitVariant { variant } => subject + ": found non-unit variant '"@
                + variant@ + "'"@,
            DeriveError::MissingRepr => subject + ": could not find `#[repr]` attribute"@,
            DeriveError::NoIntegerRepr => subject + ": could not find integer repr for conversion"@,
            DeriveError::FromOnStruct => subject + ": cannot derive From for non-enum types"@,
            DeriveError::FieldCount { found } => subject
                + ": `FromUnchecked` can only be derived for types with a single field, found "@
                + decimal_text(*found as nat),
        }
    }

    /// The message for this error, raised on the declaration named `subject`.
    pub fn message(&self, subject: &str) -> (r: String)
        ensures
            r@ == self.spec_message(subject@),
    {
        let mut r = String::new();
        match self {
            DeriveError::Discriminant { variant } => {
                r.append("Cannot derive From due to ");
                r.append(subject);
                r.append("::");
                r.append(variant.as_str());
                r.append(" discriminant");
            },
            DeriveError::NonUnitVariant { variant } => {
                r.append(subject);
                r.append(": found non-unit variant '");
                r.append(variant.as_str());
                r.append("'");
            },
            DeriveError::MissingRepr => {
                r.append(subject);
                r.append(": could not find `#[repr]` attribute");
            },
            DeriveError::NoIntegerRepr => {
                r.append(subject);
                r.append(": could not find integer repr for conversion");
            },
            DeriveError::FromOnStruct => {
                r.append(subject);
                r.append(": cannot derive From for non-enum types");
            },
            DeriveError::FieldCount { found } => {
                r.append(subject);
                r.append(": `FromUnchecked` can only be derived for types with a single field, found ");
                push_decimal(&mut r, *found);
            },
        }
        assert(r@ =~= self.spec_message(subject@));
        r
    }
}

} // verus!
