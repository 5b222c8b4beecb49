use zod_gen::ZodSchema;
use zod_gen_derive::attrs::AttrTokens;
use zod_gen_derive::derive::derive_zod_schema;
use zod_gen_derive::model::{Data, NamedField, FieldList, TypeDef, EnumVariant};

fn serde_attr(tokens: &str) -> AttrTokens {
    AttrTokens { is_serde: true, tokens: tokens.to_string() }
}

fn field(ident: &str, attrs: Vec<AttrTokens>, schema: String) -> NamedField {
    NamedField { ident: ident.to_string(), attrs, schema }
}

fn struct_def(ident: &str, fields: Vec<NamedField>) -> TypeDef {
    TypeDef { ident: ident.to_string(), attrs: vec![], data: Data::Struct(FieldList::Named(fields)) }
}

fn variant(ident: &str, fields: FieldList) -> EnumVariant {
    EnumVariant { ident: ident.to_string(), attrs: vec![], fields }
}

fn enum_def(ident: &str, variants: Vec<EnumVariant>) -> TypeDef {
    TypeDef { ident: ident.to_string(), attrs: vec![], data: Data::Enum(variants) }
}

#[test]
fn test_struct_schema() {
    let def = struct_def(
        "TestStruct",
        vec![field("a", vec![], String::zod_schema()), field("b", vec![], i32::zod_schema())],
    );
    let schema = derive_zod_schema(&def).unwrap();
    assert!(schema.contains("a: z.string()"));
    assert!(schema.contains("b: z.number()"));
}

#[test]
fn test_small_integer_struct_schema() {
    let def = struct_def(
        "TestSmallIntegerStruct",
        vec![
            field("byte", vec![], u8::zod_schema()),
            field("layer", vec![], u16::zod_schema()),
            field("offset", vec![], i8::zod_schema()),
            field("temperature", vec![], i16::zod_schema()),
        ],
    );
    let schema = derive_zod_schema(&def).unwrap();
    assert!(schema.contains("byte: z.number()"), "schema: {schema}");
    assert!(schema.contains("layer: z.number()"), "schema: {schema}");
    assert!(schema.contains("offset: z.number()"), "schema: {schema}");
    assert!(schema.contains("temperature: z.number()"), "schema: {schema}");
}

#[test]
fn test_enum_schema() {
    let def = enum_def("TestEnum", vec![variant("Foo", FieldList::Unit), variant("Bar", FieldList::Unit)]);
    let schema = derive_zod_schema(&def).unwrap();
    assert!(schema.contains("z.literal('Foo')"));
    assert!(schema.contains("z.literal('Bar')"));
}

#[test]
fn test_small_integer_enum_schema() {
    let def = enum_def(
        "TestSmallIntegerEnum",
        vec![
            variant("Byte", FieldList::Unnamed(vec![u8::zod_schema()])),
            variant("Temperature", FieldList::Unnamed(vec![i16::zod_schema()])),
        ],
    );
    let schema = derive_zod_schema(&def).unwrap();
    assert!(schema.contains("Byte: z.number()"), "schema: {schema}");
    assert!(schema.contains("Temperature: z.number()"), "schema: {schema}");
}

#[test]
fn test_struct_rename() {
    let def = struct_def(
        "TestStructWithRename",
        vec![field(
            "foobar",
            vec![serde_attr("# [serde (rename = \"FOOBAR\")]")],
            String::zod_schema(),
        )],
    );
    let schema = derive_zod_schema(&def).unwrap();
    assert!(schema.contains("FOOBAR: z.string()"));
}

#[test]
fn struct_schema_is_exact_object() {
    let def = struct_def(
        "TestStruct",
        vec![field("a", vec![], String::zod_schema()), field("b", vec![], i32::zod_schema())],
    );
    assert_eq!(
        derive_zod_schema(&def).unwrap(),
        "z.object({\n  a: z.string(),\n  b: z.number()\n})"
    );
}

#[test]
fn empty_struct_is_empty_object() {
    let def = struct_def("Empty", vec![]);
    assert_eq!(derive_zod_schema(&def).unwrap(), "z.object({\n\n})");
}

#[test]
fn unit_enum_is_exact_union_of_literals() {
    let def = enum_def("TestEnum", vec![variant("Foo", FieldList::Unit), variant("Bar", FieldList::Unit)]);
    assert_eq!(
        derive_zod_schema(&def).unwrap(),
        "z.union([z.literal('Foo'), z.literal('Bar')])"
    );
}

#[test]
fn non_serde_attribute_is_ignored() {
    let def = struct_def(
        "Doc",
        vec![field(
            "x",
            vec![AttrTokens { is_serde: false, tokens: "# [doc = \" rename = \\\"y\\\"\"]".to_string() }],
            String::zod_schema(),
        )],
    );
    let schema = derive_zod_schema(&def).unwrap();
    assert!(schema.contains("  x: z.string()"), "schema: {schema}");
}

#[test]
fn nested_struct_schema_is_inlined() {
    let profile = struct_def(
        "UserProfile",
        vec![
            field("bio", vec![], String::zod_schema()),
            field("avatar_url", vec![], Option::<String>::zod_schema()),
        ],
    );
    let profile_schema = derive_zod_schema(&profile).unwrap();
    let user = struct_def(
        "User",
        vec![
            field("id", vec![], u64::zod_schema()),
            field("tags", vec![], Vec::<String>::zod_schema()),
            field("profile", vec![], format!("{profile_schema}.nullable()")),
        ],
    );
    let schema = derive_zod_schema(&user).unwrap();
    assert!(schema.contains("id: z.number()"), "schema: {schema}");
    assert!(schema.contains("tags: z.array(z.string())"), "schema: {schema}");
    assert!(schema.contains("avatar_url: z.string().nullable()"), "schema: {schema}");
}
