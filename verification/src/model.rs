//! The derive input: a type definition with the schemas of its field types.

use vstd::prelude::*;

use vstd::string::*;

use crate::attrs::AttrTokens;

verus! {

/// A named field: its identifier, its attributes and the Zod schema of its
/// type (what `<T as ZodSchema>::zod_schema()` gives for the field's type `T`).
pub struct NamedField {
    pub ident: String,
    pub attrs: Vec<AttrTokens>,
    pub schema: String,
}

/// The fields of a struct or of an enum variant.
pub enum FieldList {
    /// `{ a: A, b: B }`.
    Named(Vec<NamedField>),
    /// `(A, B)`: the Zod schema of each field's type, in order.
    Unnamed(Vec<String>),
    /// No fields.
    Unit,
}

/// An enum variant.
pub struct EnumVariant {
    pub ident: String,
    pub attrs: Vec<AttrTokens>,
    pub fields: FieldList,
}

/// The body of a type definition.
pub enum Data {
    Struct(FieldList),
    Enum(Vec<EnumVariant>),
    Union,
}

/// A type definition as `#[derive(ZodSchema)]` receives it.
pub struct TypeDef {
    pub ident: String,
    pub attrs: Vec<AttrTokens>,
    pub data: Data,
}

/// Why a type definition has no derived schema.
#[derive(Clone, Copy, Debug, PartialEq, Eq)]
pub enum DeriveError {
    /// A tuple struct or a unit struct.
    NotNamedStruct,
    /// Neither a struct nor an enum (a union).
    NotStructOrEnum,
    /// An enum marked `untagged` that also has a tag or a content key.
    ConflictingEnumAttributes,
    /// An internally tagged enum whose variant at this index has zero or
    /// several unnamed fields.
    TupleVariantWithTag(usize),
}

/// The compile-time message for each error.
pub open spec fn error_message(e: DeriveError) -> Seq<char> {
    match e {
        DeriveError::NotNamedStruct => "ZodSchema derive only supports structs with named fields"@,
        DeriveError::NotStructOrEnum => "ZodSchema derive only supports structs and enums"@,
        DeriveError::ConflictingEnumAttributes => "enum cannot be both untagged and internally tagged"@,
        DeriveError::TupleVariantWithTag(_) => "#[serde(tag = \"...\")] cannot be used with tuple variants"@,
    }
}

impl DeriveError {
    /// The message with which a derive that meets this error fails.
    pub fn message(&self) -> (r: String)
        ensures
            r@ == error_message(*self),
    {
        match self {
            DeriveError::NotNamedStruct => String::from_str(
                "ZodSchema derive only supports structs with named fields",
            ),
            DeriveError::NotStructOrEnum => String::from_str(
                "ZodSchema derive only supports structs and enums",
            ),
            DeriveError::ConflictingEnumAttributes => String::from_str(
                "enum cannot be both untagged and internally tagged",
            ),
            DeriveError::TupleVariantWithTag(_) => String::from_str(
                "#[serde(tag = \"...\")] cannot be used with tuple variants",
            ),
        }
    }
}

} // verus!
