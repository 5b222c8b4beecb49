//! The Zod expression builders of `zod_gen`, with what each one returns.

use vstd::prelude::*;

verus! {

/// The texts of `items` separated by `sep`.
pub open spec fn join(items: Seq<Seq<char>>, sep: Seq<char>) -> Seq<char>
    decreases items.len(),
{
    if items.len() == 0 {
        Seq::empty()
    } else if items.len() == 1 {
        items[0]
    } else {
        join(items.drop_last(), sep) + sep + items.last()
    }
}

/// The views of a list of texts.
pub open spec fn texts(items: Seq<String>) -> Seq<Seq<char>> {
    items.map_values(|s: String| s@)
}

/// The views of a list of (key, schema) pairs.
pub open spec fn entries(items: Seq<(String, String)>) -> Seq<(Seq<char>, Seq<char>)> {
    items.map_values(|e: (String, String)| (e.0@, e.1@))
}

/// One line of a `z.object` literal: `  key: schema`.
pub open spec fn object_line(entry: (Seq<char>, Seq<char>)) -> Seq<char> {
    "  "@ + entry.0 + ": "@ + entry.1
}

/// `z.object({` and the entries, one per line, then `})`.
pub open spec fn spec_zod_object(fields: Seq<(Seq<char>, Seq<char>)>) -> Seq<char> {
    "z.object({\n"@ + join(fields.map_values(|e: (Seq<char>, Seq<char>)| object_line(e)), ",\n"@)
        + "\n})"@
}

/// `z.literal('value')`.
pub open spec fn spec_zod_literal(value: Seq<char>) -> Seq<char> {
    "z.literal('"@ + value + "')"@
}

/// `z.union([a, b, ...])`.
pub open spec fn spec_zod_union(variants: Seq<Seq<char>>) -> Seq<char> {
    "z.union(["@ + join(variants, ", "@) + "])"@
}

/// `z.discriminatedUnion('tag', [a, b, ...])`.
pub open spec fn spec_zod_discriminated_union(tag: Seq<char>, variants: Seq<Seq<char>>) -> Seq<
    char,
> {
    "z.discriminatedUnion('"@ + tag + "', ["@ + join(variants, ", "@) + "])"@
}

/// `z.tuple([a, b, ...])`.
pub open spec fn spec_zod_tuple(items: Seq<Seq<char>>) -> Seq<char> {
    "z.tuple(["@ + join(items, ", "@) + "])"@
}

/// `z.null()`.
pub open spec fn spec_zod_null() -> Seq<char> {
    "z.null()"@
}

/// `z.intersection(a, b)`.
pub open spec fn spec_zod_intersection(a: Seq<char>, b: Seq<char>) -> Seq<char> {
    "z.intersection("@ + a + ", "@ + b + ")"@
}

/// Calls `zod_gen::zod_object`, which formats each `(key, schema)` pair as
/// `  key: schema`, joins them with `,` and a line break, and wraps them in
/// `z.object({` ... `})` on lines of their own.
#[verifier::external_body]
pub(crate) fn zod_object(fields: &Vec<(String, String)>) -> (r: String)
    ensures
        r@ == spec_zod_object(entries(fields@)),
{
    let refs: Vec<(&str, &str)> = fields.iter().map(|(k, v)| (k.as_str(), v.as_str())).collect();
    zod_gen::zod_object(&refs)
}

/// Calls `zod_gen::zod_literal`, which wraps the value in `z.literal('` ... `')`.
#[verifier::external_body]
pub(crate) fn zod_literal(value: &str) -> (r: String)
    ensures
        r@ == spec_zod_literal(value@),
{
    zod_gen::zod_literal(value)
}

/// Calls `zod_gen::zod_union`, which joins the variants with `, ` inside
/// `z.union([` ... `])`.
#[verifier::external_body]
pub(crate) fn zod_union(variants: &Vec<String>) -> (r: String)
    ensures
        r@ == spec_zod_union(texts(variants@)),
{
    let refs: Vec<&str> = variants.iter().map(|s| s.as_str()).collect();
    zod_gen::zod_union(&refs)
}

/// Calls `zod_gen::zod_discriminated_union`, which joins the variants with
/// `, ` inside `z.discriminatedUnion('tag', [` ... `])`.
#[verifier::external_body]
pub(crate) fn zod_discriminated_union(tag: &str, variants: &Vec<String>) -> (r: String)
    ensures
        r@ == spec_zod_discriminated_union(tag@, texts(variants@)),
{
    let refs: Vec<&str> = variants.iter().map(|s| s.as_str()).collect();
    zod_gen::zod_discriminated_union(tag, &refs)
}

/// Calls `zod_gen::zod_tuple`, which joins the items with `, ` inside
/// `z.tuple([` ... `])`.
#[verifier::external_body]
pub(crate) fn zod_tuple(items: &Vec<String>) -> (r: String)
    ensures
        r@ == spec_zod_tuple(texts(items@)),
{
    let refs: Vec<&str> = items.iter().map(|s| s.as_str()).collect();
    zod_gen::zod_tuple(&refs)
}

/// Calls `zod_gen::zod_null`, which returns `z.null()`.
#[verifier::external_body]
pub(crate) fn zod_null() -> (r: String)
    ensures
        r@ == spec_zod_null(),
{
    zod_gen::zod_null().to_string()
}

/// Calls `zod_gen::zod_intersection`, which returns `z.intersection(a, b)`.
#[verifier::external_body]
pub(crate) fn zod_intersection(a: &str, b: &str) -> (r: String)
    ensures
        r@ == spec_zod_intersection(a@, b@),
{
    zod_gen::zod_intersection(a, b)
}

} // verus!
