//! The schema that `#[derive(ZodSchema)]` gives a type definition.

use vstd::prelude::*;

use crate::attrs::{
    find_serde_rename_from_attrs, first_serde_value, parse_enum_serde_attrs, spec_representation,
    EnumRepresentation, Representation,
};
use crate::model::{Data, DeriveError, NamedField, FieldList, TypeDef, EnumVariant};
use crate::zod::{
    entries, spec_zod_discriminated_union, spec_zod_intersection, spec_zod_literal,
    spec_zod_null, spec_zod_object, spec_zod_tuple, spec_zod_union, texts, zod_discriminated_union,
    zod_intersection, zod_literal, zod_null, zod_object, zod_tuple, zod_union,
};

verus! {

/// The JSON key of a named field: its serde rename, else its identifier.
pub open spec fn field_key(f: NamedField) -> Seq<char> {
    match first_serde_value(f.attrs@, "rename"@) {
        Some(name) => name,
        None => f.ident@,
    }
}

/// The JSON name of a variant: its serde rename, else its identifier.
pub open spec fn variant_key(v: EnumVariant) -> Seq<char> {
    match first_serde_value(v.attrs@, "rename"@) {
        Some(name) => name,
        None => v.ident@,
    }
}

/// The (key, schema) entries of named fields, in order.
pub open spec fn named_entries(fields: Seq<NamedField>) -> Seq<(Seq<char>, Seq<char>)> {
    fields.map_values(|f: NamedField| (field_key(f), f.schema@))
}

/// The object schema of named fields.
pub open spec fn fields_object(fields: Seq<NamedField>) -> Seq<char> {
    spec_zod_object(named_entries(fields))
}

/// The tag entry `tag: z.literal('name')` of a tagged variant.
pub open spec fn tag_entry(tag: Seq<char>, v: EnumVariant) -> (Seq<char>, Seq<char>) {
    (tag, spec_zod_literal(variant_key(v)))
}

/// A variant of an externally tagged enum: a literal for a unit variant, else
/// an object whose one key is the variant's name.
pub open spec fn external_variant_schema(v: EnumVariant) -> Seq<char> {
    let key = variant_key(v);
    match v.fields {
        FieldList::Unit => spec_zod_literal(key),
        FieldList::Unnamed(types) => if types@.len() == 1 {
            spec_zod_object(seq![(key, types@[0]@)])
        } else {
            spec_zod_object(seq![(key, spec_zod_tuple(texts(types@)))])
        },
        FieldList::Named(fields) => spec_zod_object(seq![(key, fields_object(fields@))]),
    }
}

/// A variant that an internally tagged enum cannot have: zero or several
/// unnamed fields.
pub open spec fn is_tuple_variant(v: EnumVariant) -> bool {
    v.fields matches FieldList::Unnamed(types) && types@.len() != 1
}

/// A variant of an internally tagged enum: the tag entry beside the fields,
/// or, for a newtype variant, intersected with the payload's schema.
pub open spec fn internal_variant_schema(tag: Seq<char>, v: EnumVariant) -> Seq<char> {
    match v.fields {
        FieldList::Unit => spec_zod_object(seq![tag_entry(tag, v)]),
        FieldList::Unnamed(types) => spec_zod_intersection(
            spec_zod_object(seq![tag_entry(tag, v)]),
            types@[0]@,
        ),
        FieldList::Named(fields) => spec_zod_object(seq![tag_entry(tag, v)] + named_entries(fields@)),
    }
}

/// A variant of an adjacently tagged enum: the tag entry, and the payload
/// under the content key unless the variant is a unit.
pub open spec fn adjacent_variant_schema(tag: Seq<char>, content: Seq<char>, v: EnumVariant) -> Seq<
    char,
> {
    match v.fields {
        FieldList::Unit => spec_zod_object(seq![tag_entry(tag, v)]),
        FieldList::Unnamed(types) => if types@.len() == 1 {
            spec_zod_object(seq![tag_entry(tag, v), (content, types@[0]@)])
        } else {
            spec_zod_object(seq![tag_entry(tag, v), (content, spec_zod_tuple(texts(types@)))])
        },
        FieldList::Named(fields) => spec_zod_object(
            seq![tag_entry(tag, v), (content, fields_object(fields@))],
        ),
    }
}

/// A variant of an untagged enum: its payload alone, `z.null()` for a unit.
pub open spec fn untagged_variant_schema(v: EnumVariant) -> Seq<char> {
    match v.fields {
        FieldList::Unit => spec_zod_null(),
        FieldList::Unnamed(types) => if types@.len() == 1 {
            types@[0]@
        } else {
            spec_zod_tuple(texts(types@))
        },
        FieldList::Named(fields) => fields_object(fields@),
    }
}

/// The first index at or after `start` of a variant with zero or several
/// unnamed fields.
pub open spec fn first_tuple_variant(variants: Seq<EnumVariant>, start: nat) -> Option<nat>
    decreases variants.len() - start,
{
    if start >= variants.len() {
        None
    } else if is_tuple_variant(variants[start as int]) {
        Some(start)
    } else {
        first_tuple_variant(variants, start + 1)
    }
}

/// The schema of an enum in each representation.
pub open spec fn enum_schema(rep: Representation, variants: Seq<EnumVariant>) -> Result<
    Seq<char>,
    DeriveError,
> {
    match rep {
        Representation::External => Ok(
            spec_zod_union(variants.map_values(|v: EnumVariant| external_variant_schema(v))),
        ),
        Representation::Internal { tag } => match first_tuple_variant(variants, 0) {
            Some(i) => Err(DeriveError::TupleVariantWithTag(i as usize)),
            None => Ok(
                spec_zod_discriminated_union(
                    tag,
                    variants.map_values(|v: EnumVariant| internal_variant_schema(tag, v)),
                ),
            ),
        },
        Representation::Adjacent { tag, content } => Ok(
            spec_zod_discriminated_union(
                tag,
                variants.map_values(|v: EnumVariant| adjacent_variant_schema(tag, content, v)),
            ),
        ),
        Representation::Untagged => Ok(
            spec_zod_union(variants.map_values(|v: EnumVariant| untagged_variant_schema(v))),
        ),
    }
}

/// The schema derived for a type definition, or why there is none.
pub open spec fn spec_derive(def: TypeDef) -> Result<Seq<char>, DeriveError> {
    match def.data {
        Data::Struct(FieldList::Named(fields)) => Ok(fields_object(fields@)),
        Data::Struct(_) => Err(DeriveError::NotNamedStruct),
        Data::Union => Err(DeriveError::NotStructOrEnum),
        Data::Enum(variants) => match spec_representation(def.attrs@) {
            None => Err(DeriveError::ConflictingEnumAttributes),
            Some(rep) => enum_schema(rep, variants@),
        },
    }
}

/// The JSON key of a named field.
fn field_name(f: &NamedField) -> (r: String)
    ensures
        r@ == field_key(*f),
{
    match find_serde_rename_from_attrs(f.attrs.as_slice()) {
        Some(name) => name,
        None => f.ident.clone(),
    }
}

/// The JSON name of a variant: its serde rename, else its identifier.
pub fn extract_serde_rename_variant(variant: &EnumVariant) -> (r: String)
    ensures
        r@ == variant_key(*variant),
{
    match find_serde_rename_from_attrs(variant.attrs.as_slice()) {
        Some(name) => name,
        None => variant.ident.clone(),
    }
}

/// The (key, schema) entries of named fields.
fn named_field_entries(fields: &Vec<NamedField>) -> (r: Vec<(String, String)>)
    ensures
        entries(r@) == named_entries(fields@),
{
    let mut out: Vec<(String, String)> = Vec::new();
    let mut i: usize = 0;
    while i < fields.len()
        invariant
            i <= fields@.len(),
            out@.len() == i,
            forall|j: int|
                0 <= j < i ==> #[trigger] out@[j].0@ == field_key(fields@[j]) && out@[j].1@
                    == fields@[j].schema@,
        decreases fields@.len() - i,
    {
        let f = &fields[i];
        out.push((field_name(f), f.schema.clone()));
        i = i + 1;
    }
    assert(entries(out@) =~= named_entries(fields@));
    out
}

/// The object schema of named fields.
fn fields_object_schema(fields: &Vec<NamedField>) -> (r: String)
    ensures
        r@ == fields_object(fields@),
{
    let e = named_field_entries(fields);
    zod_object(&e)
}

/// An object schema with the given entries.
fn object_of(e: Vec<(String, String)>) -> (r: String)
    ensures
        r@ == spec_zod_object(entries(e@)),
{
    zod_object(&e)
}

/// A one-entry list.
fn one_entry(key: String, value: String) -> (r: Vec<(String, String)>)
    ensures
        entries(r@) == seq![(key@, value@)],
{
    let mut e: Vec<(String, String)> = Vec::new();
    e.push((key, value));
    assert(entries(e@) =~= seq![(key@, value@)]);
    e
}

/// A two-entry list.
fn two_entries(k1: String, v1: String, k2: String, v2: String) -> (r: Vec<(String, String)>)
    ensures
        entries(r@) == seq![(k1@, v1@), (k2@, v2@)],
{
    let mut e: Vec<(String, String)> = Vec::new();
    e.push((k1, v1));
    e.push((k2, v2));
    assert(entries(e@) =~= seq![(k1@, v1@), (k2@, v2@)]);
    e
}

/// A variant of an externally tagged enum.
fn external_variant(v: &EnumVariant) -> (r: String)
    ensures
        r@ == external_variant_schema(*v),
{
    let key = extract_serde_rename_variant(v);
    match &v.fields {
        FieldList::Unit => zod_literal(key.as_str()),
        FieldList::Unnamed(types) => {
            if types.len() == 1 {
                object_of(one_entry(key, types[0].clone()))
            } else {
                let inner = zod_tuple(types);
                object_of(one_entry(key, inner))
            }
        },
        FieldList::Named(fields) => {
            let inner = fields_object_schema(fields);
            object_of(one_entry(key, inner))
        },
    }
}

/// A variant of an internally tagged enum.
fn internal_variant(tag: &String, v: &EnumVariant) -> (r: String)
    requires
        !is_tuple_variant(*v),
    ensures
        r@ == internal_variant_schema(tag@, *v),
{
    let key = extract_serde_rename_variant(v);
    let lit = zod_literal(key.as_str());
    match &v.fields {
        FieldList::Unit => object_of(one_entry(tag.clone(), lit)),
        FieldList::Unnamed(types) => {
            let tag_obj = object_of(one_entry(tag.clone(), lit));
            zod_intersection(tag_obj.as_str(), types[0].as_str())
        },
        FieldList::Named(fields) => {
            let mut e = one_entry(tag.clone(), lit);
            let rest = named_field_entries(fields);
            let ghost head = e@;
            let mut i: usize = 0;
            while i < rest.len()
                invariant
                    i <= rest@.len(),
                    e@ == head + rest@.take(i as int),
                decreases rest@.len() - i,
            {
                let k = rest[i].0.clone();
                let s = rest[i].1.clone();
                e.push((k, s));
                assert(rest@.take(i + 1) =~= rest@.take(i as int).push(rest@[i as int]));
                i = i + 1;
            }
            assert(rest@.take(rest@.len() as int) =~= rest@);
            assert(entries(e@) =~= entries(head) + entries(rest@));
            object_of(e)
        },
    }
}

/// A variant of an adjacently tagged enum.
fn adjacent_variant(tag: &String, content: &String, v: &EnumVariant) -> (r: String)
    ensures
        r@ == adjacent_variant_schema(tag@, content@, *v),
{
    let key = extract_serde_rename_variant(v);
    let lit = zod_literal(key.as_str());
    match &v.fields {
        FieldList::Unit => object_of(one_entry(tag.clone(), lit)),
        FieldList::Unnamed(types) => {
            if types.len() == 1 {
                object_of(two_entries(tag.clone(), lit, content.clone(), types[0].clone()))
            } else {
                let payload = zod_tuple(types);
                object_of(two_entries(tag.clone(), lit, content.clone(), payload))
            }
        },
        FieldList::Named(fields) => {
            let payload = fields_object_schema(fields);
            object_of(two_entries(tag.clone(), lit, content.clone(), payload))
        },
    }
}

/// A variant of an untagged enum.
fn untagged_variant(v: &EnumVariant) -> (r: String)
    ensures
        r@ == untagged_variant_schema(*v),
{
    match &v.fields {
        FieldList::Unit => zod_null(),
        FieldList::Unnamed(types) => {
            if types.len() == 1 {
                types[0].clone()
            } else {
                zod_tuple(types)
            }
        },
        FieldList::Named(fields) => fields_object_schema(fields),
    }
}

/// The schemas of the variants of an externally tagged enum, in order.
fn external_variants(variants: &Vec<EnumVariant>) -> (r: Vec<String>)
    ensures
        texts(r@) == variants@.map_values(|v: EnumVariant| external_variant_schema(v)),
{
    let mut out: Vec<String> = Vec::new();
    let mut i: usize = 0;
    while i < variants.len()
        invariant
            i <= variants@.len(),
            out@.len() == i,
            forall|j: int| 0 <= j < i ==> #[trigger] out@[j]@ == external_variant_schema(variants@[j]),
        decreases variants@.len() - i,
    {
        out.push(external_variant(&variants[i]));
        i = i + 1;
    }
    assert(texts(out@) =~= variants@.map_values(|v: EnumVariant| external_variant_schema(v)));
    out
}

/// The schemas of the variants of an internally tagged enum, in order.
fn internal_variants(tag: &String, variants: &Vec<EnumVariant>) -> (r: Vec<String>)
    requires
        forall|j: int| 0 <= j < variants@.len() ==> !is_tuple_variant(#[trigger] variants@[j]),
    ensures
        texts(r@) == variants@.map_values(|v: EnumVariant| internal_variant_schema(tag@, v)),
{
    let mut out: Vec<String> = Vec::new();
    let mut i: usize = 0;
    while i < variants.len()
        invariant
            i <= variants@.len(),
            forall|j: int| 0 <= j < variants@.len() ==> !is_tuple_variant(#[trigger] variants@[j]),
            out@.len() == i,
            forall|j: int|
                0 <= j < i ==> #[trigger] out@[j]@ == internal_variant_schema(tag@, variants@[j]),
        decreases variants@.len() - i,
    {
        out.push(internal_variant(tag, &variants[i]));
        i = i + 1;
    }
    assert(texts(out@) =~= variants@.map_values(|v: EnumVariant| internal_variant_schema(tag@, v)));
    out
}

/// The schemas of the variants of an adjacently tagged enum, in order.
fn adjacent_variants(tag: &String, content: &String, variants: &Vec<EnumVariant>) -> (r: Vec<String>)
    ensures
        texts(r@) == variants@.map_values(
            |v: EnumVariant| adjacent_variant_schema(tag@, content@, v),
        ),
{
    let mut out: Vec<String> = Vec::new();
    let mut i: usize = 0;
    while i < variants.len()
        invariant
            i <= variants@.len(),
            out@.len() == i,
            forall|j: int|
                0 <= j < i ==> #[trigger] out@[j]@ == adjacent_variant_schema(
                    tag@,
                    content@,
                    variants@[j],
                ),
        decreases variants@.len() - i,
    {
        out.push(adjacent_variant(tag, content, &variants[i]));
        i = i + 1;
    }
    assert(texts(out@) =~= variants@.map_values(
        |v: EnumVariant| adjacent_variant_schema(tag@, content@, v),
    ));
    out
}

/// The schemas of the variants of an untagged enum, in order.
fn untagged_variants(variants: &Vec<EnumVariant>) -> (r: Vec<String>)
    ensures
        texts(r@) == variants@.map_values(|v: EnumVariant| untagged_variant_schema(v)),
{
    let mut out: Vec<String> = Vec::new();
    let mut i: usize = 0;
    while i < variants.len()
        invariant
            i <= variants@.len(),
            out@.len() == i,
            forall|j: int| 0 <= j < i ==> #[trigger] out@[j]@ == untagged_variant_schema(variants@[j]),
        decreases variants@.len() - i,
    {
        out.push(untagged_variant(&variants[i]));
        i = i + 1;
    }
    assert(texts(out@) =~= variants@.map_values(|v: EnumVariant| untagged_variant_schema(v)));
    out
}

/// `first_tuple_variant` returns exactly the least tuple-variant index at or
/// after `start`.
pub proof fn lemma_first_tuple_variant(variants: Seq<EnumVariant>, start: nat)
    ensures
        first_tuple_variant(variants, start) matches Some(k) ==> {
            &&& start <= k < variants.len()
            &&& is_tuple_variant(variants[k as int])
            &&& forall|j: int| start <= j < k ==> !is_tuple_variant(#[trigger] variants[j])
        },
        first_tuple_variant(variants, start) is None ==> forall|j: int|
            start <= j < variants.len() ==> !is_tuple_variant(#[trigger] variants[j]),
    decreases variants.len() - start,
{
    if start < variants.len() && !is_tuple_variant(variants[start as int]) {
        lemma_first_tuple_variant(variants, start + 1);
    }
}

/// The index of the first variant with zero or several unnamed fields.
fn find_tuple_variant(variants: &Vec<EnumVariant>) -> (r: Option<usize>)
    ensures
        match r {
            Some(k) => first_tuple_variant(variants@, 0) == Some(k as nat),
            None => first_tuple_variant(variants@, 0) is None,
        },
{
    let mut i: usize = 0;
    while i < variants.len()
        invariant
            i <= variants@.len(),
            first_tuple_variant(variants@, 0) == first_tuple_variant(variants@, i as nat),
        decreases variants@.len() - i,
    {
        match &variants[i].fields {
            FieldList::Unnamed(types) => {
                if types.len() != 1 {
                    return Some(i);
                }
            },
            _ => {},
        }
        i = i + 1;
    }
    None
}

/// The Zod schema that `#[derive(ZodSchema)]` gives the type definition
/// `input`: an object for a struct with named fields, and for an enum the
/// union or discriminated union that mirrors serde's JSON representation.
pub fn derive_zod_schema(input: &TypeDef) -> (r: Result<String, DeriveError>)
    ensures
        r is Ok <==> spec_derive(*input) is Ok,
        r matches Ok(schema) ==> spec_derive(*input) == Ok::<Seq<char>, DeriveError>(schema@),
        r matches Err(e) ==> spec_derive(*input) == Err::<Seq<char>, DeriveError>(e),
{
    match &input.data {
        Data::Struct(FieldList::Named(fields)) => Ok(fields_object_schema(fields)),
        Data::Struct(_) => Err(DeriveError::NotNamedStruct),
        Data::Union => Err(DeriveError::NotStructOrEnum),
        Data::Enum(variants) => {
            let rep = match parse_enum_serde_attrs(input.attrs.as_slice()) {
                Ok(rep) => rep,
                Err(_) => {
                    return Err(DeriveError::ConflictingEnumAttributes);
                },
            };
            match rep {
                EnumRepresentation::ExternallyTagged => {
                    let schemas = external_variants(variants);
                    Ok(zod_union(&schemas))
                },
                EnumRepresentation::InternallyTagged { tag } => {
                    match find_tuple_variant(variants) {
                        Some(k) => Err(DeriveError::TupleVariantWithTag(k)),
                        None => {
                            proof {
                                lemma_first_tuple_variant(variants@, 0);
                            }
                            let schemas = internal_variants(&tag, variants);
                            Ok(zod_discriminated_union(tag.as_str(), &schemas))
                        },
                    }
                },
                EnumRepresentation::AdjacentlyTagged { tag, content } => {
                    let schemas = adjacent_variants(&tag, &content, variants);
                    Ok(zod_discriminated_union(tag.as_str(), &schemas))
                },
                EnumRepresentation::Untagged => {
                    let schemas = untagged_variants(variants);
                    Ok(zod_union(&schemas))
                },
            }
        },
    }
}

} // verus!
