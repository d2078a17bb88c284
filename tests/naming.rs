use sea_query::naming::{derived_table_name, derived_variant_name};

#[test]
fn table_name_is_snake_case_of_type() {
    assert_eq!(derived_table_name("CharacterSize", None), "character_size");
    assert_eq!(derived_table_name("Font", Some("fonts".to_string())), "fonts");
    assert_eq!(derived_table_name("", None), "");
}

#[test]
fn variant_names() {
    assert_eq!(derived_variant_name("character", "Table", None), "character");
    assert_eq!(derived_variant_name("character", "SizeW", None), "size_w");
    assert_eq!(derived_variant_name("character", "FontId", Some("font".to_string())), "font");
}
