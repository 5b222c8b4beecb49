use zod_gen_derive::attrs::{
    find_serde_content_from_attrs, find_serde_rename_from_attrs, find_serde_tag_from_attrs,
    has_serde_untagged, parse_enum_serde_attrs, AttrTokens, EnumRepresentation,
};
use zod_gen_derive::derive::extract_serde_rename_variant;
use zod_gen_derive::model::{FieldList, EnumVariant};

fn serde_attr(tokens: &str) -> AttrTokens {
    AttrTokens { is_serde: true, tokens: tokens.to_string() }
}

fn other_attr(tokens: &str) -> AttrTokens {
    AttrTokens { is_serde: false, tokens: tokens.to_string() }
}

#[test]
fn rename_is_read_from_serde_attribute() {
    let attrs = vec![serde_attr("# [serde (rename = \"user_name\")]")];
    assert_eq!(find_serde_rename_from_attrs(&attrs), Some("user_name".to_string()));
}

#[test]
fn rename_absent_gives_none() {
    let attrs = vec![serde_attr("# [serde (default)]")];
    assert_eq!(find_serde_rename_from_attrs(&attrs), None);
    assert_eq!(find_serde_rename_from_attrs(&[]), None);
}

#[test]
fn rename_in_non_serde_attribute_is_ignored() {
    let attrs = vec![
        other_attr("# [doc = \" rename = \\\"nope\\\"\"]"),
        serde_attr("# [serde (rename = \"yes\")]"),
    ];
    assert_eq!(find_serde_rename_from_attrs(&attrs), Some("yes".to_string()));
}

#[test]
fn first_serde_attribute_with_a_value_wins() {
    let attrs = vec![
        serde_attr("# [serde (skip)]"),
        serde_attr("# [serde (rename = \"first\")]"),
        serde_attr("# [serde (rename = \"second\")]"),
    ];
    assert_eq!(find_serde_rename_from_attrs(&attrs), Some("first".to_string()));
}

#[test]
fn rename_all_is_not_a_rename() {
    let attrs = vec![serde_attr("# [serde (rename_all = \"camelCase\")]")];
    assert_eq!(find_serde_rename_from_attrs(&attrs), None);
}

#[test]
fn rename_after_rename_all_is_read() {
    let attrs = vec![serde_attr("# [serde (rename_all = \"camelCase\" , rename = \"x\")]")];
    assert_eq!(find_serde_rename_from_attrs(&attrs), Some("x".to_string()));
}

#[test]
fn untagged_with_rename_all_has_no_tag() {
    let attrs = vec![serde_attr("# [serde (untagged , rename_all = \"lowercase\")]")];
    assert_eq!(find_serde_tag_from_attrs(&attrs), None);
    assert!(has_serde_untagged(&attrs));
    assert_eq!(parse_enum_serde_attrs(&attrs), Ok(EnumRepresentation::Untagged));
}

#[test]
fn content_key_is_not_read_inside_tag_value() {
    let attrs = vec![serde_attr("# [serde (tag = \"content_type\" , content = \"body\")]")];
    assert_eq!(find_serde_tag_from_attrs(&attrs), Some("content_type".to_string()));
    assert_eq!(find_serde_content_from_attrs(&attrs), Some("body".to_string()));
}

#[test]
fn untagged_inside_a_value_is_not_the_flag() {
    let attrs = vec![serde_attr("# [serde (rename = \"untagged_x\")]")];
    assert!(!has_serde_untagged(&attrs));
    let in_string = vec![serde_attr("# [serde (rename = \"(untagged)\")]")];
    assert!(!has_serde_untagged(&in_string));
    assert_eq!(parse_enum_serde_attrs(&in_string), Ok(EnumRepresentation::ExternallyTagged));
}

#[test]
fn key_inside_a_string_literal_is_skipped() {
    let attrs = vec![serde_attr("# [serde (alias = \", tag = \\\"x\\\"\" , tag = \"kind\")]")];
    assert_eq!(find_serde_tag_from_attrs(&attrs), Some("kind".to_string()));
}

#[test]
fn rename_serialize_value_is_read() {
    let attrs = vec![serde_attr("# [serde (rename (serialize = \"a\"))]")];
    assert_eq!(find_serde_rename_from_attrs(&attrs), Some("a".to_string()));
    let both = vec![serde_attr("# [serde (rename (deserialize = \"b\" , serialize = \"a\"))]")];
    assert_eq!(find_serde_rename_from_attrs(&both), Some("a".to_string()));
    let only_deserialize = vec![serde_attr("# [serde (rename (deserialize = \"b\"))]")];
    assert_eq!(find_serde_rename_from_attrs(&only_deserialize), None);
}

#[test]
fn raw_string_value_is_read() {
    let attrs = vec![serde_attr("# [serde (rename = r\"raw\\name\")]")];
    assert_eq!(find_serde_rename_from_attrs(&attrs), Some("raw\\name".to_string()));
}

#[test]
fn key_without_value_gives_none() {
    let attrs = vec![serde_attr("# [serde (rename)]")];
    assert_eq!(find_serde_rename_from_attrs(&attrs), None);
}

#[test]
fn keyword_without_closing_quote_gives_none() {
    let attrs = vec![serde_attr("# [serde (rename = \"open)]")];
    assert_eq!(find_serde_rename_from_attrs(&attrs), None);
}

#[test]
fn non_ascii_rename_is_kept() {
    let attrs = vec![serde_attr("# [serde (rename = \"größe\")]")];
    assert_eq!(find_serde_rename_from_attrs(&attrs), Some("größe".to_string()));
}

#[test]
fn tag_and_content_are_read() {
    let attrs = vec![serde_attr("# [serde (tag = \"t\" , content = \"c\")]")];
    assert_eq!(find_serde_tag_from_attrs(&attrs), Some("t".to_string()));
    assert_eq!(find_serde_content_from_attrs(&attrs), Some("c".to_string()));
}

#[test]
fn untagged_alone_has_no_tag_value() {
    let attrs = vec![serde_attr("# [serde (untagged)]")];
    assert_eq!(find_serde_tag_from_attrs(&attrs), None);
    assert!(has_serde_untagged(&attrs));
}

#[test]
fn untagged_only_counts_in_serde_attributes() {
    assert!(!has_serde_untagged(&[other_attr("# [doc = \"untagged\"]")]));
    assert!(!has_serde_untagged(&[serde_attr("# [serde (tag = \"type\")]")]));
}

#[test]
fn representation_external_by_default() {
    assert_eq!(parse_enum_serde_attrs(&[]), Ok(EnumRepresentation::ExternallyTagged));
}

#[test]
fn representation_internal() {
    let attrs = vec![serde_attr("# [serde (tag = \"type\")]")];
    assert_eq!(
        parse_enum_serde_attrs(&attrs),
        Ok(EnumRepresentation::InternallyTagged { tag: "type".to_string() })
    );
}

#[test]
fn representation_adjacent() {
    let attrs = vec![serde_attr("# [serde (tag = \"kind\")]"), serde_attr("# [serde (content = \"data\")]")];
    assert_eq!(
        parse_enum_serde_attrs(&attrs),
        Ok(EnumRepresentation::AdjacentlyTagged {
            tag: "kind".to_string(),
            content: "data".to_string()
        })
    );
}

#[test]
fn representation_untagged() {
    let attrs = vec![serde_attr("# [serde (untagged)]")];
    assert_eq!(parse_enum_serde_attrs(&attrs), Ok(EnumRepresentation::Untagged));
}

#[test]
fn representation_untagged_with_content_is_error() {
    let attrs = vec![serde_attr("# [serde (untagged , content = \"c\")]")];
    assert_eq!(
        parse_enum_serde_attrs(&attrs),
        Err("enum cannot be both untagged and internally tagged".to_string())
    );
}

#[test]
fn variant_name_uses_rename_else_identifier() {
    let renamed = EnumVariant {
        ident: "Active".to_string(),
        attrs: vec![serde_attr("# [serde (rename = \"active\")]")],
        fields: FieldList::Unit,
    };
    let plain = EnumVariant { ident: "Pending".to_string(), attrs: vec![], fields: FieldList::Unit };
    assert_eq!(extract_serde_rename_variant(&renamed), "active");
    assert_eq!(extract_serde_rename_variant(&plain), "Pending");
}
