use zod_gen_derive::model::{Data, DeriveError, FieldList};
use zod_gen_derive::read::{derive_from_tokens, read_derive_input};

fn tokens(source: &str) -> proc_macro2::TokenStream {
    source.parse().unwrap()
}

#[test]
fn struct_is_read_with_fields_and_attributes() {
    let def = read_derive_input(tokens(
        "struct User { #[serde(rename = \"user_name\")] name: String, tags: Vec<String> }",
    ))
    .unwrap();
    assert_eq!(def.ident, "User");
    match &def.data {
        Data::Struct(FieldList::Named(fields)) => {
            assert_eq!(fields.len(), 2);
            assert_eq!(fields[0].ident, "name");
            assert_eq!(fields[0].attrs.len(), 1);
            assert!(fields[0].attrs[0].is_serde);
            assert_eq!(fields[0].attrs[0].tokens, "# [serde (rename = \"user_name\")]");
            assert_eq!(fields[0].schema, "String");
            assert_eq!(fields[1].ident, "tags");
            assert_eq!(fields[1].schema, "Vec < String >");
        }
        _ => panic!("expected a struct with named fields"),
    }
}

#[test]
fn struct_template_uses_renames() {
    let (_, result) = derive_from_tokens(tokens(
        "struct User { #[serde(rename = \"user_name\")] name: String, id: u64 }",
    ))
    .unwrap();
    assert_eq!(result.unwrap(), "z.object({\n  user_name: String,\n  id: u64\n})");
}

#[test]
fn enum_is_read_in_order() {
    let def = read_derive_input(tokens(
        "#[serde(tag = \"kind\")] enum E { A, #[serde(rename = \"bee\")] B { x: u32 }, C(String) }",
    ))
    .unwrap();
    assert_eq!(def.attrs.len(), 1);
    match &def.data {
        Data::Enum(variants) => {
            assert_eq!(variants.len(), 3);
            assert_eq!(variants[0].ident, "A");
            assert!(matches!(variants[0].fields, FieldList::Unit));
            assert_eq!(variants[1].ident, "B");
            assert!(matches!(&variants[1].fields, FieldList::Named(f) if f.len() == 1));
            assert!(matches!(&variants[2].fields, FieldList::Unnamed(t) if t == &vec!["String".to_string()]));
        }
        _ => panic!("expected an enum"),
    }
}

#[test]
fn non_serde_attributes_are_marked() {
    let def = read_derive_input(tokens("#[derive(Clone)] #[doc = \"untagged\"] struct S { a: u8 }")).unwrap();
    assert_eq!(def.attrs.len(), 2);
    assert!(!def.attrs[0].is_serde);
    assert!(!def.attrs[1].is_serde);
}

#[test]
fn union_and_tuple_struct_are_rejected() {
    let (_, union) = derive_from_tokens(tokens("union U { a: u32, b: f32 }")).unwrap();
    assert_eq!(union, Err(DeriveError::NotStructOrEnum));
    let (_, tuple) = derive_from_tokens(tokens("struct W(u32);")).unwrap();
    assert_eq!(tuple, Err(DeriveError::NotNamedStruct));
}

#[test]
fn tokens_that_are_not_a_definition_give_the_parser_message() {
    let result = read_derive_input(tokens("fn f() {}"));
    assert!(result.is_err());
    assert!(!result.err().unwrap().is_empty());
}

#[test]
fn untagged_with_rename_all_is_a_plain_union() {
    let (_, result) = derive_from_tokens(tokens(
        "#[serde(untagged, rename_all = \"lowercase\")] enum E { A(u32), B }",
    ))
    .unwrap();
    assert_eq!(result.unwrap(), "z.union([u32, z.null()])");
}

#[test]
fn rename_all_on_a_variant_does_not_rename_it() {
    let (_, result) = derive_from_tokens(tokens(
        "enum E { #[serde(rename_all = \"camelCase\")] Req { the_id: u32 } }",
    ))
    .unwrap();
    assert!(result.unwrap().contains("Req: z.object({"));
}

#[test]
fn read_definition_keeps_variant_renames_and_order() {
    let parsed: syn::DeriveInput = syn::parse_str(
        "enum E { #[serde(rename(serialize = \"first\"))] A, B(u8, u16) }",
    )
    .unwrap();
    let def = zod_gen_derive::read::read_definition(&parsed);
    match &def.data {
        Data::Enum(variants) => {
            assert_eq!(variants[0].ident, "A");
            assert_eq!(variants[0].attrs[0].tokens, "# [serde (rename (serialize = \"first\"))]");
            assert!(matches!(&variants[1].fields, FieldList::Unnamed(t) if t == &vec!["u8".to_string(), "u16".to_string()]));
        }
        _ => panic!("expected an enum"),
    }
    let (_, result) = derive_from_tokens(tokens(
        "enum E { #[serde(rename(serialize = \"first\"))] A, B(u8, u16) }",
    ))
    .unwrap();
    assert_eq!(result.unwrap(), "z.union([z.literal('first'), z.object({\n  B: z.tuple([u8, u16])\n})])");
}
