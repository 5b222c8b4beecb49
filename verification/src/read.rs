//! Reading the derive input from its tokens with `syn`.

use vstd::prelude::*;

use crate::attrs::AttrTokens;
use crate::derive::{derive_zod_schema, spec_derive};
use crate::model::{Data, DeriveError, EnumVariant, FieldList, NamedField, TypeDef};
use crate::zod::texts;

verus! {

/// Which of its three forms a field list of `syn` has.
pub enum FieldsForm {
    Named,
    Unnamed,
    Unit,
}

/// A `syn` field as plain values: identifier, attributes (each as its serde
/// flag and token text) and the token text of its type.
pub struct FieldView {
    pub ident: Option<Seq<char>>,
    pub attrs: Seq<(bool, Seq<char>)>,
    pub ty: Seq<char>,
}

/// A `syn` field list as plain values.
pub struct FieldsView {
    pub form: FieldsForm,
    pub items: Seq<FieldView>,
}

/// A `syn` enum variant as plain values.
pub struct VariantView {
    pub ident: Seq<char>,
    pub attrs: Seq<(bool, Seq<char>)>,
    pub fields: FieldsView,
}

/// The body of a `syn` definition as plain values.
pub enum DataView {
    Struct(FieldsView),
    Enum(Seq<VariantView>),
    Union,
}

/// A `syn` definition as plain values.
pub struct DefinitionView {
    pub ident: Seq<char>,
    pub attrs: Seq<(bool, Seq<char>)>,
    pub data: DataView,
}

/// What `syn::parse2::<DeriveInput>` makes of the tokens: the definition, or
/// the message of its error.
pub uninterp spec fn parse_outcome(input: proc_macro2::TokenStream) -> Result<DefinitionView, Seq<char>>;

/// The message (`Display`) of a `syn::Error`.
pub uninterp spec fn syn_error_text(err: syn::Error) -> Seq<char>;

/// The identifier text of a definition.
pub uninterp spec fn definition_ident_text(input: syn::DeriveInput) -> Seq<char>;

/// The attributes of a definition, in order.
pub uninterp spec fn definition_attr_views(input: syn::DeriveInput) -> Seq<(bool, Seq<char>)>;

/// The body of a definition.
pub uninterp spec fn definition_data_view(input: syn::DeriveInput) -> DataView;

/// Whether an attribute's path is the identifier `serde`.
pub uninterp spec fn attribute_is_serde(attr: syn::Attribute) -> bool;

/// The token text of an attribute.
pub uninterp spec fn attribute_text(attr: syn::Attribute) -> Seq<char>;

/// The form of a field list.
pub uninterp spec fn fields_form_of(fields: syn::Fields) -> FieldsForm;

/// The fields of a field list, in order.
pub uninterp spec fn fields_item_views(fields: syn::Fields) -> Seq<FieldView>;

/// The identifier text of a field, if it has one.
pub uninterp spec fn field_ident_text(field: syn::Field) -> Option<Seq<char>>;

/// The attributes of a field, in order.
pub uninterp spec fn field_attr_views(field: syn::Field) -> Seq<(bool, Seq<char>)>;

/// The token text of a field's type.
pub uninterp spec fn field_type_text_of(field: syn::Field) -> Seq<char>;

/// The identifier text of a variant.
pub uninterp spec fn variant_ident_text(variant: syn::Variant) -> Seq<char>;

/// The attributes of a variant, in order.
pub uninterp spec fn variant_attr_views(variant: syn::Variant) -> Seq<(bool, Seq<char>)>;

/// The field list of a variant.
pub uninterp spec fn variant_fields_of(variant: syn::Variant) -> FieldsView;

/// The tokens parse as a struct, enum or union definition.
pub open spec fn parses_as_definition(input: proc_macro2::TokenStream) -> bool {
    parse_outcome(input) is Ok
}

/// An attribute as plain values.
pub open spec fn attr_view(attr: syn::Attribute) -> (bool, Seq<char>) {
    (attribute_is_serde(attr), attribute_text(attr))
}

/// A field as plain values.
pub open spec fn field_view(field: syn::Field) -> FieldView {
    FieldView {
        ident: field_ident_text(field),
        attrs: field_attr_views(field),
        ty: field_type_text_of(field),
    }
}

/// A field list as plain values.
pub open spec fn fields_view(fields: syn::Fields) -> FieldsView {
    FieldsView { form: fields_form_of(fields), items: fields_item_views(fields) }
}

/// A variant as plain values.
pub open spec fn variant_view(variant: syn::Variant) -> VariantView {
    VariantView {
        ident: variant_ident_text(variant),
        attrs: variant_attr_views(variant),
        fields: variant_fields_of(variant),
    }
}

/// A definition as plain values.
pub open spec fn definition_view(input: syn::DeriveInput) -> DefinitionView {
    DefinitionView {
        ident: definition_ident_text(input),
        attrs: definition_attr_views(input),
        data: definition_data_view(input),
    }
}

/// Attributes of the model as plain values.
pub open spec fn model_attrs(attrs: Seq<AttrTokens>) -> Seq<(bool, Seq<char>)> {
    attrs.map_values(|a: AttrTokens| (a.is_serde, a.tokens@))
}

/// An identifier, or the empty text where there is none.
pub open spec fn ident_or_empty(ident: Option<Seq<char>>) -> Seq<char> {
    match ident {
        Some(text) => text,
        None => Seq::empty(),
    }
}

/// The model's named field is the field read: identifier, attributes, and
/// the type's text in the schema slot.
pub open spec fn named_field_read(m: NamedField, v: FieldView) -> bool {
    &&& m.ident@ == ident_or_empty(v.ident)
    &&& model_attrs(m.attrs@) == v.attrs
    &&& m.schema@ == v.ty
}

/// The model's field list is the field list read, in order.
pub open spec fn fields_read(m: FieldList, v: FieldsView) -> bool {
    match v.form {
        FieldsForm::Named => m matches FieldList::Named(fs) && fs@.len() == v.items.len() && forall|
            i: int,
        |
            0 <= i < v.items.len() ==> named_field_read(#[trigger] fs@[i], v.items[i]),
        FieldsForm::Unnamed => m matches FieldList::Unnamed(ts) && texts(ts@) == v.items.map_values(
            |f: FieldView| f.ty,
        ),
        FieldsForm::Unit => m is Unit,
    }
}

/// The model's variant is the variant read.
pub open spec fn variant_read(m: EnumVariant, v: VariantView) -> bool {
    &&& m.ident@ == v.ident
    &&& model_attrs(m.attrs@) == v.attrs
    &&& fields_read(m.fields, v.fields)
}

/// The model's definition is the definition read: identifier, attributes,
/// and the fields or variants in order.
pub open spec fn definition_read(m: TypeDef, v: DefinitionView) -> bool {
    &&& m.ident@ == v.ident
    &&& model_attrs(m.attrs@) == v.attrs
    &&& match v.data {
        DataView::Struct(f) => m.data matches Data::Struct(mf) && fields_read(mf, f),
        DataView::Enum(vs) => m.data matches Data::Enum(mv) && mv@.len() == vs.len() && forall|
            i: int,
        | 0 <= i < vs.len() ==> variant_read(#[trigger] mv@[i], vs[i]),
        DataView::Union => m.data is Union,
    }
}

/// Calls `syn::parse2::<syn::DeriveInput>`: its outcome is a function of the
/// tokens, named `parse_outcome`.
#[verifier::external_body]
fn parse_derive_input(input: proc_macro2::TokenStream) -> (r: Result<syn::DeriveInput, syn::Error>)
    ensures
        match parse_outcome(input) {
            Ok(v) => r matches Ok(d) && definition_view(d) == v,
            Err(m) => r matches Err(e) && syn_error_text(e) == m,
        },
{
    syn::parse2::<syn::DeriveInput>(input)
}

/// Calls `Display::to_string` on a `syn::Error`.
#[verifier::external_body]
fn syn_error_message(err: &syn::Error) -> (r: String)
    ensures
        r@ == syn_error_text(*err),
{
    err.to_string()
}

/// Calls `Ident::to_string` on the definition's identifier.
#[verifier::external_body]
fn input_ident(input: &syn::DeriveInput) -> (r: String)
    ensures
        r@ == definition_ident_text(*input),
{
    input.ident.to_string()
}

/// Clones the definition's attributes, in order.
#[verifier::external_body]
fn input_attrs(input: &syn::DeriveInput) -> (r: Vec<syn::Attribute>)
    ensures
        r@.map_values(|a: syn::Attribute| attr_view(a)) == definition_attr_views(*input),
{
    input.attrs.clone()
}

/// Clones the fields of a struct definition; `None` for an enum or a union.
#[verifier::external_body]
fn struct_fields(input: &syn::DeriveInput) -> (r: Option<syn::Fields>)
    ensures
        match definition_data_view(*input) {
            DataView::Struct(f) => r matches Some(fields) && fields_view(fields) == f,
            _ => r is None,
        },
{
    match &input.data {
        syn::Data::Struct(data) => Some(data.fields.clone()),
        _ => None,
    }
}

/// Clones the variants of an enum definition, in order; `None` for a struct
/// or a union.
#[verifier::external_body]
fn enum_variants(input: &syn::DeriveInput) -> (r: Option<Vec<syn::Variant>>)
    ensures
        match definition_data_view(*input) {
            DataView::Enum(vs) => r matches Some(variants) && variants@.map_values(
                |v: syn::Variant| variant_view(v),
            ) == vs,
            _ => r is None,
        },
{
    match &input.data {
        syn::Data::Enum(data) => Some(data.variants.iter().cloned().collect()),
        _ => None,
    }
}

/// Tells the three forms of `syn::Fields` apart.
#[verifier::external_body]
fn fields_form(fields: &syn::Fields) -> (r: FieldsForm)
    ensures
        r == fields_form_of(*fields),
{
    match fields {
        syn::Fields::Named(_) => FieldsForm::Named,
        syn::Fields::Unnamed(_) => FieldsForm::Unnamed,
        syn::Fields::Unit => FieldsForm::Unit,
    }
}

/// Clones the fields of a field list, in order (`Fields::iter`).
#[verifier::external_body]
fn fields_list(fields: &syn::Fields) -> (r: Vec<syn::Field>)
    ensures
        r@.map_values(|f: syn::Field| field_view(f)) == fields_item_views(*fields),
{
    fields.iter().cloned().collect()
}

/// Calls `Ident::to_string` on a field's identifier; `None` for an unnamed field.
#[verifier::external_body]
fn field_ident(field: &syn::Field) -> (r: Option<String>)
    ensures
        r.deep_view() == field_ident_text(*field),
{
    field.ident.as_ref().map(|ident| ident.to_string())
}

/// Clones a field's attributes, in order.
#[verifier::external_body]
fn field_attrs(field: &syn::Field) -> (r: Vec<syn::Attribute>)
    ensures
        r@.map_values(|a: syn::Attribute| attr_view(a)) == field_attr_views(*field),
{
    field.attrs.clone()
}

/// Calls `ToTokens::to_token_stream` and `to_string` on a field's type.
#[verifier::external_body]
fn field_type_text(field: &syn::Field) -> (r: String)
    ensures
        r@ == field_type_text_of(*field),
{
    quote::ToTokens::to_token_stream(&field.ty).to_string()
}

/// Calls `Ident::to_string` on a variant's identifier.
#[verifier::external_body]
fn variant_ident(variant: &syn::Variant) -> (r: String)
    ensures
        r@ == variant_ident_text(*variant),
{
    variant.ident.to_string()
}

/// Clones a variant's attributes, in order.
#[verifier::external_body]
fn variant_attrs(variant: &syn::Variant) -> (r: Vec<syn::Attribute>)
    ensures
        r@.map_values(|a: syn::Attribute| attr_view(a)) == variant_attr_views(*variant),
{
    variant.attrs.clone()
}

/// Clones a variant's field list.
#[verifier::external_body]
fn variant_fields(variant: &syn::Variant) -> (r: syn::Fields)
    ensures
        fields_view(r) == variant_fields_of(*variant),
{
    variant.fields.clone()
}

/// Calls `Path::is_ident("serde")` on an attribute's path.
#[verifier::external_body]
fn attr_is_serde(attr: &syn::Attribute) -> (r: bool)
    ensures
        r == attribute_is_serde(*attr),
{
    attr.path().is_ident("serde")
}

/// Calls `ToTokens::to_token_stream` and `to_string` on an attribute: its
/// token text, such as `# [serde (rename = "id")]`.
#[verifier::external_body]
fn attr_text(attr: &syn::Attribute) -> (r: String)
    ensures
        r@ == attribute_text(*attr),
{
    quote::ToTokens::to_token_stream(attr).to_string()
}

/// The attributes, each read as its serde flag and token text, in order.
fn read_attrs(attrs: &Vec<syn::Attribute>) -> (r: Vec<AttrTokens>)
    ensures
        model_attrs(r@) == attrs@.map_values(|a: syn::Attribute| attr_view(a)),
{
    let mut out: Vec<AttrTokens> = Vec::new();
    let mut i: usize = 0;
    while i < attrs.len()
        invariant
            i <= attrs@.len(),
            out@.len() == i,
            forall|j: int|
                0 <= j < i ==> (#[trigger] out@[j]).is_serde == attribute_is_serde(attrs@[j])
                    && out@[j].tokens@ == attribute_text(attrs@[j]),
        decreases attrs@.len() - i,
    {
        let attr = &attrs[i];
        out.push(AttrTokens { is_serde: attr_is_serde(attr), tokens: attr_text(attr) });
        i = i + 1;
    }
    assert(model_attrs(out@) =~= attrs@.map_values(|a: syn::Attribute| attr_view(a)));
    out
}

/// A field list, with each field's type text in the place of its schema.
fn read_fields(fields: &syn::Fields) -> (r: FieldList)
    ensures
        fields_read(r, fields_view(*fields)),
{
    let list = fields_list(fields);
    let ghost items = fields_item_views(*fields);
    assert(items.len() == list@.len());
    match fields_form(fields) {
        FieldsForm::Named => {
            let mut out: Vec<NamedField> = Vec::new();
            let mut i: usize = 0;
            while i < list.len()
                invariant
                    i <= list@.len(),
                    items == list@.map_values(|f: syn::Field| field_view(f)),
                    out@.len() == i,
                    forall|j: int| 0 <= j < i ==> named_field_read(#[trigger] out@[j], items[j]),
                decreases list@.len() - i,
            {
                let f = &list[i];
                let ident = match field_ident(f) {
                    Some(ident) => ident,
                    None => String::new(),
                };
                let attrs = read_attrs(&field_attrs(f));
                out.push(NamedField { ident, attrs, schema: field_type_text(f) });
                assert(items[i as int] == field_view(list@[i as int]));
                i = i + 1;
            }
            FieldList::Named(out)
        },
        FieldsForm::Unnamed => {
            let mut out: Vec<String> = Vec::new();
            let mut i: usize = 0;
            while i < list.len()
                invariant
                    i <= list@.len(),
                    items == list@.map_values(|f: syn::Field| field_view(f)),
                    out@.len() == i,
                    forall|j: int| 0 <= j < i ==> (#[trigger] out@[j])@ == items[j].ty,
                decreases list@.len() - i,
            {
                out.push(field_type_text(&list[i]));
                assert(items[i as int] == field_view(list@[i as int]));
                i = i + 1;
            }
            assert(texts(out@) =~= items.map_values(|f: FieldView| f.ty));
            FieldList::Unnamed(out)
        },
        FieldsForm::Unit => FieldList::Unit,
    }
}

/// The variants of an enum, in order.
fn read_variants(variants: &Vec<syn::Variant>) -> (r: Vec<EnumVariant>)
    ensures
        r@.len() == variants@.len(),
        forall|i: int|
            0 <= i < variants@.len() ==> variant_read(#[trigger] r@[i], variant_view(variants@[i])),
{
    let mut out: Vec<EnumVariant> = Vec::new();
    let mut i: usize = 0;
    while i < variants.len()
        invariant
            i <= variants@.len(),
            out@.len() == i,
            forall|j: int|
                0 <= j < i ==> variant_read(#[trigger] out@[j], variant_view(variants@[j])),
        decreases variants@.len() - i,
    {
        let v = &variants[i];
        out.push(
            EnumVariant {
                ident: variant_ident(v),
                attrs: read_attrs(&variant_attrs(v)),
                fields: read_fields(&variant_fields(v)),
            },
        );
        i = i + 1;
    }
    out
}

/// The model of a parsed definition: its identifier, attributes, and fields
/// or variants in order, with each field type's token text in the place of
/// its schema.
pub fn read_definition(input: &syn::DeriveInput) -> (r: TypeDef)
    ensures
        definition_read(r, definition_view(*input)),
{
    let data = match struct_fields(input) {
        Some(fields) => Data::Struct(read_fields(&fields)),
        None => match enum_variants(input) {
            Some(variants) => {
                let read = read_variants(&variants);
                let ghost vs = variants@.map_values(|v: syn::Variant| variant_view(v));
                assert forall|i: int| 0 <= i < vs.len() implies variant_read(
                    #[trigger] read@[i],
                    vs[i],
                ) by {
                    assert(vs[i] == variant_view(variants@[i]));
                }
                Data::Enum(read)
            },
            None => Data::Union,
        },
    };
    TypeDef { ident: input_ident(input), attrs: read_attrs(&input_attrs(input)), data }
}

/// The type definition in the derive input `input`, or the parser's message
/// when the tokens are not a struct, enum or union definition. Each field's
/// schema slot holds the token text of the field's type: the field types'
/// schemas are known only when the derived impl runs.
pub fn read_derive_input(input: proc_macro2::TokenStream) -> (r: Result<TypeDef, String>)
    ensures
        r is Ok <==> parses_as_definition(input),
        r matches Ok(def) ==> parse_outcome(input) matches Ok(v) && definition_read(def, v),
        r matches Err(msg) ==> parse_outcome(input) == Err::<DefinitionView, Seq<char>>(msg@),
{
    match parse_derive_input(input) {
        Ok(parsed) => Ok(read_definition(&parsed)),
        Err(err) => Err(syn_error_message(&err)),
    }
}

/// Reads the derive input and derives from it: the type definition (with
/// type texts in the place of field schemas, as `read_derive_input` gives it)
/// and the derived schema or error for it. Whether the derive fails, and how,
/// does not depend on the field schemas (`law_errors_depend_on_shape_only`).
pub fn derive_from_tokens(input: proc_macro2::TokenStream) -> (r: Result<
    (TypeDef, Result<String, DeriveError>),
    String,
>)
    ensures
        r is Ok <==> parses_as_definition(input),
        r matches Err(msg) ==> parse_outcome(input) == Err::<DefinitionView, Seq<char>>(msg@),
        r matches Ok((def, res)) ==> {
            &&& parse_outcome(input) matches Ok(v) && definition_read(def, v)
            &&& res is Ok <==> spec_derive(def) is Ok
            &&& res matches Ok(schema) ==> spec_derive(def) == Ok::<Seq<char>, DeriveError>(
                schema@,
            )
            &&& res matches Err(e) ==> spec_derive(def) == Err::<Seq<char>, DeriveError>(e)
        },
{
    match read_derive_input(input) {
        Ok(def) => {
            let res = derive_zod_schema(&def);
            Ok((def, res))
        },
        Err(msg) => Err(msg),
    }
}

} // verus!
