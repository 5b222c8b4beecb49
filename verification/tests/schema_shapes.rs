use zod_gen::ZodSchema;
use zod_gen_derive::attrs::AttrTokens;
use zod_gen_derive::derive::derive_zod_schema;
use zod_gen_derive::model::{Data, DeriveError, NamedField, FieldList, TypeDef, EnumVariant};

fn serde_attr(tokens: &str) -> AttrTokens {
    AttrTokens { is_serde: true, tokens: tokens.to_string() }
}

fn field(ident: &str, schema: String) -> NamedField {
    NamedField { ident: ident.to_string(), attrs: vec![], schema }
}

fn variant(ident: &str, fields: FieldList) -> EnumVariant {
    EnumVariant { ident: ident.to_string(), attrs: vec![], fields }
}

fn enum_def(attrs: Vec<AttrTokens>, variants: Vec<EnumVariant>) -> TypeDef {
    TypeDef { ident: "E".to_string(), attrs, data: Data::Enum(variants) }
}

#[test]
fn tuple_struct_is_rejected() {
    let def = TypeDef {
        ident: "Wrapper".to_string(),
        attrs: vec![],
        data: Data::Struct(FieldList::Unnamed(vec![u32::zod_schema()])),
    };
    assert_eq!(derive_zod_schema(&def), Err(DeriveError::NotNamedStruct));
    let unit = TypeDef { ident: "Unit".to_string(), attrs: vec![], data: Data::Struct(FieldList::Unit) };
    assert_eq!(derive_zod_schema(&unit), Err(DeriveError::NotNamedStruct));
}

#[test]
fn union_is_rejected() {
    let def = TypeDef { ident: "U".to_string(), attrs: vec![], data: Data::Union };
    assert_eq!(derive_zod_schema(&def), Err(DeriveError::NotStructOrEnum));
}

#[test]
fn error_messages() {
    assert_eq!(
        DeriveError::NotNamedStruct.message(),
        "ZodSchema derive only supports structs with named fields"
    );
    assert_eq!(
        DeriveError::NotStructOrEnum.message(),
        "ZodSchema derive only supports structs and enums"
    );
    assert_eq!(
        DeriveError::ConflictingEnumAttributes.message(),
        "enum cannot be both untagged and internally tagged"
    );
    assert_eq!(
        DeriveError::TupleVariantWithTag(3).message(),
        "#[serde(tag = \"...\")] cannot be used with tuple variants"
    );
}

#[test]
fn internal_tag_error_names_first_tuple_variant() {
    let def = enum_def(
        vec![serde_attr("# [serde (tag = \"type\")]")],
        vec![
            variant("A", FieldList::Unit),
            variant("B", FieldList::Unnamed(vec![])),
            variant("C", FieldList::Unnamed(vec![u32::zod_schema(), u32::zod_schema()])),
        ],
    );
    assert_eq!(derive_zod_schema(&def), Err(DeriveError::TupleVariantWithTag(1)));
}

#[test]
fn internal_schema_is_exact() {
    let def = enum_def(
        vec![serde_attr("# [serde (tag = \"type\")]")],
        vec![
            variant("Ping", FieldList::Unit),
            variant("Data", FieldList::Unnamed(vec!["P".to_string()])),
            variant("Req", FieldList::Named(vec![field("id", String::zod_schema())])),
        ],
    );
    assert_eq!(
        derive_zod_schema(&def).unwrap(),
        "z.discriminatedUnion('type', [z.object({\n  type: z.literal('Ping')\n}), \
z.intersection(z.object({\n  type: z.literal('Data')\n}), P), \
z.object({\n  type: z.literal('Req'),\n  id: z.string()\n})])"
    );
}

#[test]
fn adjacent_schema_is_exact() {
    let def = enum_def(
        vec![serde_attr("# [serde (tag = \"t\" , content = \"c\")]")],
        vec![
            variant("U", FieldList::Unit),
            variant("N", FieldList::Unnamed(vec![u32::zod_schema()])),
        ],
    );
    assert_eq!(
        derive_zod_schema(&def).unwrap(),
        "z.discriminatedUnion('t', [z.object({\n  t: z.literal('U')\n}), \
z.object({\n  t: z.literal('N'),\n  c: z.number()\n})])"
    );
}

#[test]
fn untagged_schema_is_exact() {
    let def = enum_def(
        vec![serde_attr("# [serde (untagged)]")],
        vec![
            variant("Num", FieldList::Unnamed(vec![u32::zod_schema()])),
            variant("Nothing", FieldList::Unit),
            variant("Empty", FieldList::Unnamed(vec![])),
        ],
    );
    assert_eq!(
        derive_zod_schema(&def).unwrap(),
        "z.union([z.number(), z.null(), z.tuple([])])"
    );
}

#[test]
fn empty_enum_is_empty_union() {
    let def = enum_def(vec![], vec![]);
    assert_eq!(derive_zod_schema(&def).unwrap(), "z.union([])");
}

#[test]
fn discriminated_union_only_when_tagged() {
    let variants = || vec![variant("A", FieldList::Unnamed(vec![u32::zod_schema()]))];
    let external = derive_zod_schema(&enum_def(vec![], variants())).unwrap();
    let untagged = derive_zod_schema(&enum_def(vec![serde_attr("# [serde (untagged)]")], variants())).unwrap();
    let tagged =
        derive_zod_schema(&enum_def(vec![serde_attr("# [serde (tag = \"kind\")]")], variants()))
            .unwrap();
    assert!(!external.starts_with("z.discriminatedUnion('"));
    assert!(!untagged.starts_with("z.discriminatedUnion('"));
    assert!(tagged.starts_with("z.discriminatedUnion('kind', ["));
}

#[test]
fn errors_do_not_depend_on_field_schemas() {
    let make = |schema: &str| {
        enum_def(
            vec![serde_attr("# [serde (tag = \"type\")]")],
            vec![variant("T", FieldList::Unnamed(vec![schema.to_string(), schema.to_string()]))],
        )
    };
    assert_eq!(derive_zod_schema(&make("")), derive_zod_schema(&make("z.number()")));
}

#[test]
fn each_variant_schema_appears_in_enum_schema() {
    let def = enum_def(
        vec![],
        vec![
            variant("A", FieldList::Unit),
            variant("B", FieldList::Named(vec![field("x", u32::zod_schema())])),
        ],
    );
    let schema = derive_zod_schema(&def).unwrap();
    assert!(schema.contains("z.literal('A')"));
    assert!(schema.contains("z.object({\n  B: z.object({\n  x: z.number()\n})\n})"));
}
