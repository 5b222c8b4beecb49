//! What holds of every derived schema.

use vstd::prelude::*;

use crate::attrs::{AttrTokens, first_serde_value, spec_has_untagged, spec_representation, Representation};
use crate::derive::{
    adjacent_variant_schema, external_variant_schema, first_tuple_variant, internal_variant_schema,
    is_tuple_variant, lemma_first_tuple_variant, named_entries, spec_derive,
    untagged_variant_schema,
};
use crate::model::{Data, DeriveError, EnumVariant, FieldList, NamedField, TypeDef};
use crate::text::{contains_text, has_flag, keyword_value, lemma_find_from, occurs_at};
use crate::zod::{
    join, object_line, spec_zod_discriminated_union, spec_zod_literal, spec_zod_null, spec_zod_intersection,
    spec_zod_object, spec_zod_tuple, spec_zod_union, texts,
};

verus! {

/// `prefix` is the beginning of `s`.
pub open spec fn starts_with(s: Seq<char>, prefix: Seq<char>) -> bool {
    prefix.len() <= s.len() && s.take(prefix.len() as int) == prefix
}

/// The variant schemas of an unadorned enum.
pub open spec fn external_variants(variants: Seq<EnumVariant>) -> Seq<Seq<char>> {
    variants.map_values(|v: EnumVariant| external_variant_schema(v))
}

/// An enum without serde attributes is externally tagged, serde's default:
/// its schema is the union of its variants' externally tagged schemas.
pub proof fn law_default_representation_is_external(def: TypeDef)
    requires
        def.data is Enum,
        forall|i: int| 0 <= i < def.attrs@.len() ==> !(#[trigger] def.attrs@[i]).is_serde,
    ensures
        def.data matches Data::Enum(variants) && spec_derive(def) == Ok::<
            Seq<char>,
            DeriveError,
        >(spec_zod_union(external_variants(variants@))),
{
    lemma_no_serde_value(def.attrs@, "tag"@);
    lemma_no_serde_value(def.attrs@, "content"@);
}

/// Attributes of which none is a serde attribute give no serde value.
pub proof fn lemma_no_serde_value(attrs: Seq<crate::attrs::AttrTokens>, keyword: Seq<char>)
    requires
        forall|i: int| 0 <= i < attrs.len() ==> !(#[trigger] attrs[i]).is_serde,
    ensures
        first_serde_value(attrs, keyword) is None,
    decreases attrs.len(),
{
    if attrs.len() > 0 {
        assert forall|i: int| 0 <= i < attrs.drop_first().len() implies !(
        #[trigger] attrs.drop_first()[i]).is_serde by {
            assert(attrs.drop_first()[i] == attrs[i + 1]);
        }
        lemma_no_serde_value(attrs.drop_first(), keyword);
    }
}

/// An externally tagged enum whose variants all are units has the union of
/// the literals of its variants' names as its schema.
pub proof fn law_unit_enum_is_union_of_literals(def: TypeDef)
    requires
        def.data matches Data::Enum(variants) && forall|i: int|
            0 <= i < variants@.len() ==> (#[trigger] variants@[i]).fields is Unit,
        spec_representation(def.attrs@) == Some(Representation::External),
    ensures
        def.data matches Data::Enum(variants) && spec_derive(def) == Ok::<Seq<char>, DeriveError>(
            spec_zod_union(variants@.map_values(|v: EnumVariant| spec_zod_literal(variant_json_name(v)))),
        ),
{
    if let Data::Enum(variants) = def.data {
        assert(variants@.map_values(|v: EnumVariant| external_variant_schema(v)) =~= variants@.map_values(
            |v: EnumVariant| spec_zod_literal(variant_json_name(v)),
        ));
    }
}

/// An internally tagged enum with a variant of zero or several unnamed fields
/// has no schema, and the error names the first such variant.
pub proof fn law_internal_tag_rejects_tuple_variants(def: TypeDef, k: int)
    requires
        def.data matches Data::Enum(variants) && 0 <= k < variants@.len() && is_tuple_variant(
            variants@[k],
        ),
        spec_representation(def.attrs@) matches Some(Representation::Internal { .. }),
    ensures
        def.data matches Data::Enum(variants) && exists|first: int|
            0 <= first <= k && is_tuple_variant(#[trigger] variants@[first]) && spec_derive(def)
                == Err::<Seq<char>, DeriveError>(DeriveError::TupleVariantWithTag(first as usize)),
{
    if let Data::Enum(variants) = def.data {
        lemma_first_tuple_variant(variants@, 0);
        let first = first_tuple_variant(variants@, 0);
        assert(first is Some);
        let f = first->0;
        assert(is_tuple_variant(variants@[f as int]));
    }
}

/// An enum marked `untagged` that also names a tag or a content key has no
/// schema.
pub proof fn law_untagged_excludes_tag_and_content(def: TypeDef)
    requires
        def.data is Enum,
        spec_has_untagged(def.attrs@),
        first_serde_value(def.attrs@, "tag"@) is Some || first_serde_value(
            def.attrs@,
            "content"@,
        ) is Some,
    ensures
        spec_derive(def) == Err::<Seq<char>, DeriveError>(DeriveError::ConflictingEnumAttributes),
{
}

/// An enum's schema is a discriminated union exactly when its serde
/// attributes name a tag, and then the union is keyed by exactly that tag.
pub proof fn law_discriminated_union_iff_tagged(def: TypeDef, s: Seq<char>)
    requires
        def.data is Enum,
        spec_derive(def) == Ok::<Seq<char>, DeriveError>(s),
    ensures
        starts_with(s, "z.discriminatedUnion('"@) <==> first_serde_value(def.attrs@, "tag"@) is Some,
        first_serde_value(def.attrs@, "tag"@) matches Some(tag) ==> starts_with(
            s,
            "z.discriminatedUnion('"@ + tag + "', ["@,
        ),
{
    reveal_strlit("z.discriminatedUnion('");
    reveal_strlit("z.union([");
    let disc = "z.discriminatedUnion('"@;
    if let Data::Enum(variants) = def.data {
        match spec_representation(def.attrs@) {
            Some(Representation::Internal { tag }) => {
                let p = disc + tag + "', ["@;
                assert(s.take(p.len() as int) =~= p);
                assert(s.take(disc.len() as int) =~= disc);
            },
            Some(Representation::Adjacent { tag, content }) => {
                let p = disc + tag + "', ["@;
                assert(s.take(p.len() as int) =~= p);
                assert(s.take(disc.len() as int) =~= disc);
            },
            _ => {
                assert(s[2] == 'u');
                assert(disc[2] == 'd');
                if starts_with(s, disc) {
                    assert(s.take(disc.len() as int)[2] == s[2]);
                }
            },
        }
    }
}

/// Each item of a joined list occurs in the joined text.
pub proof fn lemma_join_contains(items: Seq<Seq<char>>, sep: Seq<char>, i: int)
    requires
        0 <= i < items.len(),
    ensures
        exists|p: int| occurs_at(join(items, sep), items[i], p),
    decreases items.len(),
{
    let joined = join(items, sep);
    if items.len() == 1 {
        assert(joined.subrange(0, items[0].len() as int) =~= items[0]);
        assert(occurs_at(joined, items[i], 0));
    } else {
        let front = join(items.drop_last(), sep);
        if i == items.len() - 1 {
            let p: int = (front.len() + sep.len()) as int;
            assert(joined.subrange(p, p + items[i].len()) =~= items[i]);
            assert(occurs_at(joined, items[i], p));
        } else {
            lemma_join_contains(items.drop_last(), sep, i);
            let p = choose|p: int| occurs_at(front, items.drop_last()[i], p);
            assert(joined.subrange(p, p + items[i].len()) =~= front.subrange(p, p + items[i].len()));
            assert(occurs_at(joined, items[i], p));
        }
    }
}

/// Each item of a joined list occurs in `before + joined + after`.
pub proof fn lemma_wrapped_join_contains(
    before: Seq<char>,
    items: Seq<Seq<char>>,
    sep: Seq<char>,
    after: Seq<char>,
    i: int,
)
    requires
        0 <= i < items.len(),
    ensures
        contains_text(before + join(items, sep) + after, items[i]),
{
    let joined = join(items, sep);
    let whole = before + joined + after;
    lemma_join_contains(items, sep, i);
    let p = choose|p: int| occurs_at(joined, items[i], p);
    let q: int = before.len() + p;
    assert(whole.subrange(q, q + items[i].len()) =~= joined.subrange(p, p + items[i].len()));
    assert(occurs_at(whole, items[i], q));
    lemma_find_from(whole, items[i], 0);
}

/// A struct's schema holds the line `  key: schema` of each of its named
/// fields, with the field's serde rename as its key where it has one.
pub proof fn law_struct_schema_lists_each_field(def: TypeDef, s: Seq<char>, i: int)
    requires
        def.data matches Data::Struct(FieldList::Named(fields)) && 0 <= i < fields@.len(),
        spec_derive(def) == Ok::<Seq<char>, DeriveError>(s),
    ensures
        def.data matches Data::Struct(FieldList::Named(fields)) && contains_text(
            s,
            object_line(json_entry(fields@[i])),
        ),
{
    if let Data::Struct(FieldList::Named(fields)) = def.data {
        let lines = named_entries(fields@).map_values(
            |e: (Seq<char>, Seq<char>)| object_line(e),
        );
        lemma_entries_are_json_entries(fields@);
        assert(lines[i] == object_line(json_entry(fields@[i])));
        lemma_wrapped_join_contains("z.object({\n"@, lines, ",\n"@, "\n})"@, i);
    }
}

/// The schema of one variant under a representation.
pub open spec fn variant_schema(rep: Representation, v: EnumVariant) -> Seq<char> {
    match rep {
        Representation::External => external_variant_schema(v),
        Representation::Internal { tag } => internal_variant_schema(tag, v),
        Representation::Adjacent { tag, content } => adjacent_variant_schema(tag, content, v),
        Representation::Untagged => untagged_variant_schema(v),
    }
}

/// An enum's schema holds the schema of each of its variants under the
/// representation that its serde attributes select.
pub proof fn law_enum_schema_lists_each_variant(def: TypeDef, s: Seq<char>, i: int)
    requires
        def.data matches Data::Enum(variants) && 0 <= i < variants@.len(),
        spec_derive(def) == Ok::<Seq<char>, DeriveError>(s),
    ensures
        def.data matches Data::Enum(variants) && spec_representation(def.attrs@) matches Some(rep)
            && contains_text(s, variant_schema(rep, variants@[i])),
{
    if let Data::Enum(variants) = def.data {
        let vs = variants@;
        match spec_representation(def.attrs@) {
            Some(Representation::External) => {
                let items = vs.map_values(|v: EnumVariant| external_variant_schema(v));
                lemma_wrapped_join_contains("z.union(["@, items, ", "@, "])"@, i);
            },
            Some(Representation::Internal { tag }) => {
                let items = vs.map_values(|v: EnumVariant| internal_variant_schema(tag, v));
                lemma_wrapped_join_contains(
                    "z.discriminatedUnion('"@ + tag + "', ["@,
                    items,
                    ", "@,
                    "])"@,
                    i,
                );
            },
            Some(Representation::Adjacent { tag, content }) => {
                let items = vs.map_values(|v: EnumVariant| adjacent_variant_schema(tag, content, v));
                lemma_wrapped_join_contains(
                    "z.discriminatedUnion('"@ + tag + "', ["@,
                    items,
                    ", "@,
                    "])"@,
                    i,
                );
            },
            Some(Representation::Untagged) => {
                let items = vs.map_values(|v: EnumVariant| untagged_variant_schema(v));
                lemma_wrapped_join_contains("z.union(["@, items, ", "@, "])"@, i);
            },
            None => {},
        }
    }
}

/// The two field lists are of one kind, and of one length when unnamed.
pub open spec fn fields_same_shape(a: FieldList, b: FieldList) -> bool {
    match (a, b) {
        (FieldList::Named(_), FieldList::Named(_)) => true,
        (FieldList::Unnamed(x), FieldList::Unnamed(y)) => x@.len() == y@.len(),
        (FieldList::Unit, FieldList::Unit) => true,
        _ => false,
    }
}

/// The two definitions differ at most in identifiers, field attributes and
/// field schemas, and in the attributes of variants.
pub open spec fn same_shape(a: TypeDef, b: TypeDef) -> bool {
    &&& a.attrs@ == b.attrs@
    &&& match (a.data, b.data) {
        (Data::Struct(x), Data::Struct(y)) => fields_same_shape(x, y),
        (Data::Enum(x), Data::Enum(y)) => x@.len() == y@.len() && forall|i: int|
            0 <= i < x@.len() ==> fields_same_shape(#[trigger] x@[i].fields, y@[i].fields),
        (Data::Union, Data::Union) => true,
        _ => false,
    }
}

/// Two variant lists of one shape have their first tuple variant at the same
/// index.
pub proof fn lemma_first_tuple_variant_same_shape(x: Seq<EnumVariant>, y: Seq<EnumVariant>, start: nat)
    requires
        x.len() == y.len(),
        forall|i: int| 0 <= i < x.len() ==> fields_same_shape(#[trigger] x[i].fields, y[i].fields),
    ensures
        first_tuple_variant(x, start) == first_tuple_variant(y, start),
    decreases x.len() - start,
{
    if start < x.len() {
        assert(fields_same_shape(x[start as int].fields, y[start as int].fields));
        lemma_first_tuple_variant_same_shape(x, y, start + 1);
    }
}

/// Whether a definition has a schema, and which error it meets if not, do not
/// depend on the schemas of its field types nor on its identifiers.
pub proof fn law_errors_depend_on_shape_only(a: TypeDef, b: TypeDef)
    requires
        same_shape(a, b),
    ensures
        spec_derive(a) is Ok <==> spec_derive(b) is Ok,
        spec_derive(a) matches Err(e) ==> spec_derive(b) == Err::<Seq<char>, DeriveError>(e),
{
    if let (Data::Enum(x), Data::Enum(y)) = (a.data, b.data) {
        lemma_first_tuple_variant_same_shape(x@, y@, 0);
    }
}

/// Attributes read in two parts: the value comes from the first part where
/// it has one, else from the second.
pub proof fn law_first_serde_value_concat(a: Seq<AttrTokens>, b: Seq<AttrTokens>, key: Seq<char>)
    ensures
        first_serde_value(a + b, key) == (if first_serde_value(a, key) is Some {
            first_serde_value(a, key)
        } else {
            first_serde_value(b, key)
        }),
    decreases a.len(),
{
    if a.len() == 0 {
        assert(a + b =~= b);
    } else {
        assert((a + b)[0] == a[0]);
        assert((a + b).drop_first() =~= a.drop_first() + b);
        law_first_serde_value_concat(a.drop_first(), b, key);
    }
}

/// The first serde attribute that has a value for the key gives the value,
/// whatever follows it.
pub proof fn law_first_serde_attribute_with_value_wins(
    x: AttrTokens,
    rest: Seq<AttrTokens>,
    key: Seq<char>,
)
    requires
        x.is_serde,
        keyword_value(x.tokens@, key) is Some,
    ensures
        first_serde_value(seq![x] + rest, key) == keyword_value(x.tokens@, key),
{
    assert((seq![x] + rest)[0] == x);
}

/// An attribute that is not a serde attribute changes no serde value,
/// wherever it stands.
pub proof fn law_non_serde_attribute_is_ignored(
    a: Seq<AttrTokens>,
    x: AttrTokens,
    b: Seq<AttrTokens>,
    key: Seq<char>,
)
    requires
        !x.is_serde,
    ensures
        first_serde_value(a + seq![x] + b, key) == first_serde_value(a + b, key),
        spec_has_untagged(a + seq![x] + b) == spec_has_untagged(a + b),
{
    let xb = seq![x] + b;
    assert(a + seq![x] + b =~= a + xb);
    assert(xb[0] == x);
    assert(xb.drop_first() =~= b);
    law_first_serde_value_concat(a, xb, key);
    law_first_serde_value_concat(a, b, key);
    law_untagged_concat(a, xb);
    law_untagged_concat(a, b);
    law_untagged_concat(seq![x], b);
    assert(seq![x] + b == xb);
    assert(!spec_has_untagged(seq![x])) by {
        if spec_has_untagged(seq![x]) {
            let i = choose|i: int|
                0 <= i < seq![x].len() && #[trigger] seq![x][i].is_serde && has_flag(
                    seq![x][i].tokens@,
                    "untagged"@,
                );
            assert(seq![x][i] == x);
        }
    }
}

/// An enum's attributes ask for `untagged` when one of their parts does.
pub proof fn law_untagged_concat(a: Seq<AttrTokens>, b: Seq<AttrTokens>)
    ensures
        spec_has_untagged(a + b) == (spec_has_untagged(a) || spec_has_untagged(b)),
{
    let ab = a + b;
    if spec_has_untagged(ab) {
        let i = choose|i: int|
            0 <= i < ab.len() && #[trigger] ab[i].is_serde && has_flag(ab[i].tokens@, "untagged"@);
        if i < a.len() {
            assert(ab[i] == a[i]);
            assert(a[i].is_serde);
        } else {
            assert(ab[i] == b[i - a.len()]);
            assert(b[i - a.len()].is_serde);
        }
    }
    if spec_has_untagged(a) {
        let i = choose|i: int|
            0 <= i < a.len() && #[trigger] a[i].is_serde && has_flag(a[i].tokens@, "untagged"@);
        assert(ab[i] == a[i]);
        assert(ab[i].is_serde);
    }
    if spec_has_untagged(b) {
        let i = choose|i: int|
            0 <= i < b.len() && #[trigger] b[i].is_serde && has_flag(b[i].tokens@, "untagged"@);
        assert(ab[i + a.len()] == b[i]);
        assert(ab[i + a.len()].is_serde);
    }
}

/// The JSON name serde writes for an item: the value of its first serde
/// `rename`, wherever among its attributes that attribute stands, else its
/// identifier.
pub open spec fn json_name(ident: Seq<char>, attrs: Seq<AttrTokens>) -> Seq<char> {
    match first_serde_value(attrs, "rename"@) {
        Some(name) => name,
        None => ident,
    }
}

/// The (JSON name, schema) entry of a named field.
pub open spec fn json_entry(f: NamedField) -> (Seq<char>, Seq<char>) {
    (json_name(f.ident@, f.attrs@), f.schema@)
}

/// The (JSON name, schema) entries of named fields, in declaration order.
pub open spec fn json_entries(fields: Seq<NamedField>) -> Seq<(Seq<char>, Seq<char>)> {
    fields.map_values(|f: NamedField| json_entry(f))
}

/// The JSON name of a variant.
pub open spec fn variant_json_name(v: EnumVariant) -> Seq<char> {
    json_name(v.ident@, v.attrs@)
}

proof fn lemma_entries_are_json_entries(fields: Seq<NamedField>)
    ensures
        named_entries(fields) == json_entries(fields),
{
    assert(named_entries(fields) =~= json_entries(fields));
}

/// A struct with named fields has as its schema the `z.object` of all its
/// fields, in declaration order, each keyed by its JSON name (its serde
/// rename wherever that attribute stands, else its identifier) with its
/// type's schema.
pub proof fn law_struct_schema_is_object_of_its_fields(def: TypeDef, s: Seq<char>)
    requires
        def.data matches Data::Struct(FieldList::Named(fields)),
        spec_derive(def) == Ok::<Seq<char>, DeriveError>(s),
    ensures
        def.data matches Data::Struct(FieldList::Named(fields)) && s == spec_zod_object(
            json_entries(fields@),
        ),
{
    if let Data::Struct(FieldList::Named(fields)) = def.data {
        lemma_entries_are_json_entries(fields@);
    }
}

/// In an externally tagged enum, each variant contributes, in order: the
/// literal of its JSON name for a unit; otherwise a one-entry `z.object` keyed
/// by its JSON name, whose value is the one field's schema for a newtype, the
/// `z.tuple` of all field schemas in order for zero or several unnamed
/// fields, and the `z.object` of its named fields by their JSON names.
pub proof fn law_external_variant_schemas(def: TypeDef, s: Seq<char>)
    requires
        def.data is Enum,
        spec_representation(def.attrs@) == Some(Representation::External),
        spec_derive(def) == Ok::<Seq<char>, DeriveError>(s),
    ensures
        def.data matches Data::Enum(vs) && exists|items: Seq<Seq<char>>|
            {
                &&& s == spec_zod_union(items)
                &&& items.len() == vs@.len()
                &&& forall|k: int|
                    0 <= k < vs@.len() ==> #[trigger] items[k] == match vs@[k].fields {
                        FieldList::Unit => spec_zod_literal(variant_json_name(vs@[k])),
                        FieldList::Unnamed(ts) => spec_zod_object(
                            seq![
                                (variant_json_name(vs@[k]), if ts@.len() == 1 {
                                    ts@[0]@
                                } else {
                                    spec_zod_tuple(texts(ts@))
                                }),
                            ],
                        ),
                        FieldList::Named(fs) => spec_zod_object(
                            seq![(variant_json_name(vs@[k]), spec_zod_object(json_entries(fs@)))],
                        ),
                    }
            },
{
    if let Data::Enum(vs) = def.data {
        let items = vs@.map_values(|v: EnumVariant| external_variant_schema(v));
        assert forall|k: int| 0 <= k < vs@.len() implies #[trigger] items[k] == match vs@[k].fields {
            FieldList::Unit => spec_zod_literal(variant_json_name(vs@[k])),
            FieldList::Unnamed(ts) => spec_zod_object(
                seq![
                    (variant_json_name(vs@[k]), if ts@.len() == 1 {
                        ts@[0]@
                    } else {
                        spec_zod_tuple(texts(ts@))
                    }),
                ],
            ),
            FieldList::Named(fs) => spec_zod_object(
                seq![(variant_json_name(vs@[k]), spec_zod_object(json_entries(fs@)))],
            ),
        } by {
            if let FieldList::Named(fs) = vs@[k].fields {
                lemma_entries_are_json_entries(fs@);
            }
        }
        assert(s == spec_zod_union(items));
    }
}

/// In an internally tagged enum, each variant contributes, in order, an
/// object whose first entry is `tag: z.literal('<JSON name>')`: alone for a
/// unit, followed by all named fields by their JSON names in declaration
/// order for a struct variant, and intersected with the payload's schema for
/// a newtype variant.
pub proof fn law_internal_variant_schemas(def: TypeDef, s: Seq<char>, tag: Seq<char>)
    requires
        def.data is Enum,
        spec_representation(def.attrs@) == Some(Representation::Internal { tag }),
        spec_derive(def) == Ok::<Seq<char>, DeriveError>(s),
    ensures
        def.data matches Data::Enum(vs) && exists|items: Seq<Seq<char>>|
            {
                &&& s == spec_zod_discriminated_union(tag, items)
                &&& items.len() == vs@.len()
                &&& forall|k: int|
                    0 <= k < vs@.len() ==> #[trigger] items[k] == match vs@[k].fields {
                        FieldList::Unit => spec_zod_object(
                            seq![(tag, spec_zod_literal(variant_json_name(vs@[k])))],
                        ),
                        FieldList::Unnamed(ts) => spec_zod_intersection(
                            spec_zod_object(seq![(tag, spec_zod_literal(variant_json_name(vs@[k])))]),
                            ts@[0]@,
                        ),
                        FieldList::Named(fs) => spec_zod_object(
                            seq![(tag, spec_zod_literal(variant_json_name(vs@[k])))] + json_entries(
                                fs@,
                            ),
                        ),
                    }
            },
{
    if let Data::Enum(vs) = def.data {
        assert(first_tuple_variant(vs@, 0) is None);
        let items = vs@.map_values(|v: EnumVariant| internal_variant_schema(tag, v));
        assert forall|k: int| 0 <= k < vs@.len() implies #[trigger] items[k] == match vs@[k].fields {
            FieldList::Unit => spec_zod_object(
                seq![(tag, spec_zod_literal(variant_json_name(vs@[k])))],
            ),
            FieldList::Unnamed(ts) => spec_zod_intersection(
                spec_zod_object(seq![(tag, spec_zod_literal(variant_json_name(vs@[k])))]),
                ts@[0]@,
            ),
            FieldList::Named(fs) => spec_zod_object(
                seq![(tag, spec_zod_literal(variant_json_name(vs@[k])))] + json_entries(fs@),
            ),
        } by {
            if let FieldList::Named(fs) = vs@[k].fields {
                lemma_entries_are_json_entries(fs@);
            }
        }
        assert(s == spec_zod_discriminated_union(tag, items));
    }
}

/// In an internally tagged enum, the object of a struct variant holds the
/// line `  key: schema` of every one of its named fields, keyed by the
/// field's JSON name.
pub proof fn law_internal_struct_variant_lists_each_field(
    def: TypeDef,
    s: Seq<char>,
    tag: Seq<char>,
    k: int,
    j: int,
)
    requires
        def.data matches Data::Enum(vs) && (0 <= k < vs@.len() && (vs@[k].fields matches FieldList::Named(
            fs,
        ) && 0 <= j < fs@.len())),
        spec_representation(def.attrs@) == Some(Representation::Internal { tag }),
        spec_derive(def) == Ok::<Seq<char>, DeriveError>(s),
    ensures
        def.data matches Data::Enum(vs) && (vs@[k].fields matches FieldList::Named(fs)
            && contains_text(s, object_line(json_entry(fs@[j])))),
{
    if let Data::Enum(vs) = def.data {
        if let FieldList::Named(fs) = vs@[k].fields {
            law_internal_variant_schemas(def, s, tag);
            let items = choose|items: Seq<Seq<char>>|
                {
                    &&& s == spec_zod_discriminated_union(tag, items)
                    &&& items.len() == vs@.len()
                    &&& forall|k: int|
                        0 <= k < vs@.len() ==> #[trigger] items[k] == match vs@[k].fields {
                            FieldList::Unit => spec_zod_object(
                                seq![(tag, spec_zod_literal(variant_json_name(vs@[k])))],
                            ),
                            FieldList::Unnamed(ts) => spec_zod_intersection(
                                spec_zod_object(
                                    seq![(tag, spec_zod_literal(variant_json_name(vs@[k])))],
                                ),
                                ts@[0]@,
                            ),
                            FieldList::Named(fs) => spec_zod_object(
                                seq![(tag, spec_zod_literal(variant_json_name(vs@[k])))]
                                    + json_entries(fs@),
                            ),
                        }
                };
            let entries = seq![(tag, spec_zod_literal(variant_json_name(vs@[k])))] + json_entries(
                fs@,
            );
            let lines = entries.map_values(|e: (Seq<char>, Seq<char>)| object_line(e));
            assert(lines[j + 1] == object_line(json_entry(fs@[j])));
            lemma_wrapped_join_contains("z.object({\n"@, lines, ",\n"@, "\n})"@, j + 1);
            lemma_wrapped_join_contains(
                "z.discriminatedUnion('"@ + tag + "', ["@,
                items,
                ", "@,
                "])"@,
                k,
            );
            lemma_contains_transitive(s, items[k], object_line(json_entry(fs@[j])));
        }
    }
}

/// Text contained in text contained in `a` is contained in `a`.
pub proof fn lemma_contains_transitive(a: Seq<char>, b: Seq<char>, c: Seq<char>)
    requires
        contains_text(a, b),
        contains_text(b, c),
    ensures
        contains_text(a, c),
{
    lemma_find_from(a, b, 0);
    lemma_find_from(b, c, 0);
    let p = find_from_some(a, b);
    let q = find_from_some(b, c);
    assert(a.subrange(p + q, p + q + c.len()) =~= b.subrange(q, q + c.len()));
    assert(occurs_at(a, c, p + q));
    lemma_find_from(a, c, 0);
}

/// The position that `find_from` gives from the start.
pub open spec fn find_from_some(s: Seq<char>, needle: Seq<char>) -> int {
    match crate::text::find_from(s, needle, 0) {
        Some(k) => k as int,
        None => 0,
    }
}

/// In an adjacently tagged enum, each variant contributes, in order, an
/// object whose first entry is `tag: z.literal('<JSON name>')`, followed for
/// every variant but a unit by the payload under the content key: the one
/// field's schema for a newtype, the `z.tuple` of all field schemas in order
/// for zero or several unnamed fields, the `z.object` of its named fields by
/// their JSON names.
pub proof fn law_adjacent_variant_schemas(
    def: TypeDef,
    s: Seq<char>,
    tag: Seq<char>,
    content: Seq<char>,
)
    requires
        def.data is Enum,
        spec_representation(def.attrs@) == Some(Representation::Adjacent { tag, content }),
        spec_derive(def) == Ok::<Seq<char>, DeriveError>(s),
    ensures
        def.data matches Data::Enum(vs) && exists|items: Seq<Seq<char>>|
            {
                &&& s == spec_zod_discriminated_union(tag, items)
                &&& items.len() == vs@.len()
                &&& forall|k: int|
                    0 <= k < vs@.len() ==> #[trigger] items[k] == match vs@[k].fields {
                        FieldList::Unit => spec_zod_object(
                            seq![(tag, spec_zod_literal(variant_json_name(vs@[k])))],
                        ),
                        FieldList::Unnamed(ts) => spec_zod_object(
                            seq![
                                (tag, spec_zod_literal(variant_json_name(vs@[k]))),
                                (content, if ts@.len() == 1 {
                                    ts@[0]@
                                } else {
                                    spec_zod_tuple(texts(ts@))
                                }),
                            ],
                        ),
                        FieldList::Named(fs) => spec_zod_object(
                            seq![
                                (tag, spec_zod_literal(variant_json_name(vs@[k]))),
                                (content, spec_zod_object(json_entries(fs@))),
                            ],
                        ),
                    }
            },
{
    if let Data::Enum(vs) = def.data {
        let items = vs@.map_values(|v: EnumVariant| adjacent_variant_schema(tag, content, v));
        assert forall|k: int| 0 <= k < vs@.len() implies #[trigger] items[k] == match vs@[k].fields {
            FieldList::Unit => spec_zod_object(
                seq![(tag, spec_zod_literal(variant_json_name(vs@[k])))],
            ),
            FieldList::Unnamed(ts) => spec_zod_object(
                seq![
                    (tag, spec_zod_literal(variant_json_name(vs@[k]))),
                    (content, if ts@.len() == 1 {
                        ts@[0]@
                    } else {
                        spec_zod_tuple(texts(ts@))
                    }),
                ],
            ),
            FieldList::Named(fs) => spec_zod_object(
                seq![
                    (tag, spec_zod_literal(variant_json_name(vs@[k]))),
                    (content, spec_zod_object(json_entries(fs@))),
                ],
            ),
        } by {
            if let FieldList::Named(fs) = vs@[k].fields {
                lemma_entries_are_json_entries(fs@);
            }
        }
        assert(s == spec_zod_discriminated_union(tag, items));
    }
}

/// In an untagged enum, each variant contributes, in order, its payload
/// alone: `z.null()` for a unit, the one field's schema for a newtype, the
/// `z.tuple` of all field schemas in declaration order for zero or several
/// unnamed fields, the `z.object` of its named fields by their JSON names.
pub proof fn law_untagged_variant_schemas(def: TypeDef, s: Seq<char>)
    requires
        def.data is Enum,
        spec_representation(def.attrs@) == Some(Representation::Untagged),
        spec_derive(def) == Ok::<Seq<char>, DeriveError>(s),
    ensures
        def.data matches Data::Enum(vs) && exists|items: Seq<Seq<char>>|
            {
                &&& s == spec_zod_union(items)
                &&& items.len() == vs@.len()
                &&& forall|k: int|
                    0 <= k < vs@.len() ==> #[trigger] items[k] == match vs@[k].fields {
                        FieldList::Unit => spec_zod_null(),
                        FieldList::Unnamed(ts) => if ts@.len() == 1 {
                            ts@[0]@
                        } else {
                            spec_zod_tuple(texts(ts@))
                        },
                        FieldList::Named(fs) => spec_zod_object(json_entries(fs@)),
                    }
            },
{
    if let Data::Enum(vs) = def.data {
        let items = vs@.map_values(|v: EnumVariant| untagged_variant_schema(v));
        assert forall|k: int| 0 <= k < vs@.len() implies #[trigger] items[k] == match vs@[k].fields {
            FieldList::Unit => spec_zod_null(),
            FieldList::Unnamed(ts) => if ts@.len() == 1 {
                ts@[0]@
            } else {
                spec_zod_tuple(texts(ts@))
            },
            FieldList::Named(fs) => spec_zod_object(json_entries(fs@)),
        } by {
            if let FieldList::Named(fs) = vs@[k].fields {
                lemma_entries_are_json_entries(fs@);
            }
        }
        assert(s == spec_zod_union(items));
    }
}

/// A tuple of field schemas lists each field's schema, in order: the `i`-th
/// item of `z.tuple([...])` is the `i`-th field's schema.
pub proof fn law_tuple_items_in_order(ts: Seq<String>, i: int)
    requires
        0 <= i < ts.len(),
    ensures
        texts(ts).len() == ts.len(),
        texts(ts)[i] == ts[i]@,
        contains_text(spec_zod_tuple(texts(ts)), ts[i]@),
{
    lemma_wrapped_join_contains("z.tuple(["@, texts(ts), ", "@, "])"@, i);
}

/// The representation of an enum follows from its serde attributes: untagged
/// when `untagged` is given alone, tagged by the named tag (adjacently when a
/// content key is named too), externally tagged when neither is given, and
/// none when `untagged` comes with a tag or a content key.
pub proof fn law_representation_from_attributes(attrs: Seq<AttrTokens>)
    ensures
        spec_has_untagged(attrs) && first_serde_value(attrs, "tag"@) is None && first_serde_value(
            attrs,
            "content"@,
        ) is None ==> spec_representation(attrs) == Some(Representation::Untagged),
        spec_has_untagged(attrs) && (first_serde_value(attrs, "tag"@) is Some || first_serde_value(
            attrs,
            "content"@,
        ) is Some) ==> spec_representation(attrs) is None,
        !spec_has_untagged(attrs) ==> match first_serde_value(attrs, "tag"@) {
            Some(tag) => match first_serde_value(attrs, "content"@) {
                Some(content) => spec_representation(attrs) == Some(
                    Representation::Adjacent { tag, content },
                ),
                None => spec_representation(attrs) == Some(Representation::Internal { tag }),
            },
            None => spec_representation(attrs) == Some(Representation::External),
        },
{
}

} // verus!
