//! Reading serde attributes: renames and the enum representation.

use vstd::prelude::*;

use crate::text::{has_flag, has_flag_key, key_value, keyword_value};

verus! {

/// An attribute on an item, as the derive input carries it: whether its path
/// is the single identifier `serde`, and the attribute's full token text
/// (for example `# [serde (rename = "id")]`).
pub struct AttrTokens {
    pub is_serde: bool,
    pub tokens: String,
}

/// How a serde enum is laid out in JSON.
#[derive(Debug, PartialEq, Eq)]
pub enum EnumRepresentation {
    /// `{ "EnumVariant": payload }` or `"EnumVariant"` (serde's default).
    ExternallyTagged,
    /// `#[serde(tag = "...")]`: the tag is a field next to the payload's fields.
    InternallyTagged { tag: String },
    /// `#[serde(tag = "...", content = "...")]`.
    AdjacentlyTagged { tag: String, content: String },
    /// `#[serde(untagged)]`: the payload alone.
    Untagged,
}

/// The mathematical form of an [`EnumRepresentation`].
pub enum Representation {
    External,
    Internal { tag: Seq<char> },
    Adjacent { tag: Seq<char>, content: Seq<char> },
    Untagged,
}

impl View for EnumRepresentation {
    type V = Representation;

    open spec fn view(&self) -> Representation {
        match self {
            EnumRepresentation::ExternallyTagged => Representation::External,
            EnumRepresentation::InternallyTagged { tag } => Representation::Internal { tag: tag@ },
            EnumRepresentation::AdjacentlyTagged { tag, content } => Representation::Adjacent {
                tag: tag@,
                content: content@,
            },
            EnumRepresentation::Untagged => Representation::Untagged,
        }
    }
}

/// The quoted value that follows `keyword` in the first serde attribute of
/// `attrs` that has one.
pub open spec fn first_serde_value(attrs: Seq<AttrTokens>, keyword: Seq<char>) -> Option<Seq<char>>
    decreases attrs.len(),
{
    if attrs.len() == 0 {
        None
    } else if attrs[0].is_serde && keyword_value(attrs[0].tokens@, keyword) is Some {
        keyword_value(attrs[0].tokens@, keyword)
    } else {
        first_serde_value(attrs.drop_first(), keyword)
    }
}

/// Some serde attribute of `attrs` mentions `untagged`.
pub open spec fn spec_has_untagged(attrs: Seq<AttrTokens>) -> bool {
    exists|i: int|
        0 <= i < attrs.len() && #[trigger] attrs[i].is_serde && has_flag(attrs[i].tokens@, "untagged"@)
}

/// The representation that serde attributes `attrs` ask for, or `None` when
/// they ask for `untagged` together with a tag or a content key.
pub open spec fn spec_representation(attrs: Seq<AttrTokens>) -> Option<Representation> {
    let tag = first_serde_value(attrs, "tag"@);
    let content = first_serde_value(attrs, "content"@);
    if spec_has_untagged(attrs) {
        if tag is Some || content is Some {
            None
        } else {
            Some(Representation::Untagged)
        }
    } else {
        match tag {
            Some(t) => match content {
                Some(c) => Some(Representation::Adjacent { tag: t, content: c }),
                None => Some(Representation::Internal { tag: t }),
            },
            None => Some(Representation::External),
        }
    }
}

/// The quoted value after `keyword` in the first serde attribute that has one.
fn find_serde_value(attrs: &[AttrTokens], keyword: &str) -> (r: Option<String>)
    ensures
        r.deep_view() == first_serde_value(attrs@, keyword@),
{
    let mut i: usize = 0;
    assert(attrs@.skip(0) =~= attrs@);
    while i < attrs.len()
        invariant
            i <= attrs@.len(),
            first_serde_value(attrs@, keyword@) == first_serde_value(attrs@.skip(i as int), keyword@),
        decreases attrs@.len() - i,
    {
        let ghost rest = attrs@.skip(i as int);
        assert(rest[0] == attrs@[i as int]);
        assert(rest.drop_first() =~= attrs@.skip(i + 1));
        let attr = &attrs[i];
        if attr.is_serde {
            let found = key_value(attr.tokens.as_str(), keyword);
            if found.is_some() {
                return found;
            }
        }
        i = i + 1;
    }
    None
}

/// The value of the first serde `rename = "..."` among `attrs`.
pub fn find_serde_rename_from_attrs(attrs: &[AttrTokens]) -> (r: Option<String>)
    ensures
        r.deep_view() == first_serde_value(attrs@, "rename"@),
{
    find_serde_value(attrs, "rename")
}

/// The value of the first serde `tag = "..."` among `attrs`.
pub fn find_serde_tag_from_attrs(attrs: &[AttrTokens]) -> (r: Option<String>)
    ensures
        r.deep_view() == first_serde_value(attrs@, "tag"@),
{
    find_serde_value(attrs, "tag")
}

/// The value of the first serde `content = "..."` among `attrs`.
pub fn find_serde_content_from_attrs(attrs: &[AttrTokens]) -> (r: Option<String>)
    ensures
        r.deep_view() == first_serde_value(attrs@, "content"@),
{
    find_serde_value(attrs, "content")
}

/// Whether some serde attribute among `attrs` mentions `untagged`.
pub fn has_serde_untagged(attrs: &[AttrTokens]) -> (r: bool)
    ensures
        r == spec_has_untagged(attrs@),
{
    let mut i: usize = 0;
    while i < attrs.len()
        invariant
            i <= attrs@.len(),
            forall|j: int|
                0 <= j < i ==> !(#[trigger] attrs@[j].is_serde && has_flag(attrs@[j].tokens@, "untagged"@)),
        decreases attrs@.len() - i,
    {
        let attr = &attrs[i];
        if attr.is_serde && has_flag_key(attr.tokens.as_str(), "untagged") {
            return true;
        }
        i = i + 1;
    }
    false
}

/// The enum representation that the serde attributes `attrs` select.
pub fn parse_enum_serde_attrs(attrs: &[AttrTokens]) -> (r: Result<EnumRepresentation, String>)
    ensures
        r is Ok <==> spec_representation(attrs@) is Some,
        r matches Ok(rep) ==> spec_representation(attrs@) == Some(rep@),
        r matches Err(msg) ==> msg@ == "enum cannot be both untagged and internally tagged"@,
{
    let has_untagged = has_serde_untagged(attrs);
    let tag = find_serde_tag_from_attrs(attrs);
    let content = find_serde_content_from_attrs(attrs);

    if has_untagged {
        if tag.is_some() || content.is_some() {
            return Err(String::from_str("enum cannot be both untagged and internally tagged"));
        }
        return Ok(EnumRepresentation::Untagged);
    }
    match tag {
        Some(t) => match content {
            Some(c) => Ok(EnumRepresentation::AdjacentlyTagged { tag: t, content: c }),
            None => Ok(EnumRepresentation::InternallyTagged { tag: t }),
        },
        None => Ok(EnumRepresentation::ExternallyTagged),
    }
}

} // verus!
