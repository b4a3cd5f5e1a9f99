use smart_labeling::manifest::category_from_str;
use smart_labeling::manifest::create_plugin_info_from_manifest;
use smart_labeling::manifest::plugin_info_from_fields;
use smart_labeling::PluginCategory;
use smart_labeling::PluginError;

#[test]
fn full_manifest_carries_every_field() {
    let manifest = "[plugin]\n\
                    name = \"adios.smart-labeling\"\n\
                    version = \"2.3.4\"\n\
                    description = \"labeling service\"\n\
                    author = \"TridentBiz Team\"\n\
                    category = \"enterprise\"\n";
    let info = create_plugin_info_from_manifest(manifest).unwrap();
    assert_eq!(info.id, "adios.smart-labeling");
    assert_eq!(info.name, "adios.smart-labeling");
    assert_eq!(info.version, "2.3.4");
    assert_eq!(info.description, "labeling service");
    assert_eq!(info.author, "TridentBiz Team");
    assert_eq!(info.category, PluginCategory::Integration);
}

#[test]
fn missing_version_falls_back_to_unit_identity_version() {
    let manifest = "[plugin]\nname = \"demo\"\n";
    let info = create_plugin_info_from_manifest(manifest).unwrap();
    assert_eq!(info.version, "0.1.0");
    assert_eq!(info.id, "demo");
    assert_eq!(info.name, "demo");
    assert_eq!(info.description, "");
    assert_eq!(info.author, "");
    assert_eq!(info.category, PluginCategory::Other);
}

#[test]
fn missing_name_falls_back_to_defaults() {
    let manifest = "[plugin]\nversion = \"1.0.0\"\n";
    let info = create_plugin_info_from_manifest(manifest).unwrap();
    assert_eq!(info.id, "unknown");
    assert_eq!(info.name, "Unknown Plugin");
    assert_eq!(info.version, "1.0.0");
}

#[test]
fn unrecognized_category_maps_to_other_not_an_error() {
    let manifest = "[plugin]\nname = \"demo\"\ncategory = \"underwater-basketry\"\n";
    let info = create_plugin_info_from_manifest(manifest).unwrap();
    assert_eq!(info.category, PluginCategory::Other);
}

#[test]
fn every_recognized_category_maps_to_its_variant() {
    assert_eq!(category_from_str("productivity"), PluginCategory::Productivity);
    assert_eq!(category_from_str("development"), PluginCategory::Core);
    assert_eq!(category_from_str("enterprise"), PluginCategory::Integration);
    assert_eq!(category_from_str("communication"), PluginCategory::Communication);
    assert_eq!(category_from_str("wellness"), PluginCategory::Wellness);
    assert_eq!(category_from_str("display"), PluginCategory::Display);
    assert_eq!(category_from_str("other"), PluginCategory::Other);
    assert_eq!(category_from_str("Productivity"), PluginCategory::Other);
}

#[test]
fn manifest_without_plugin_section_is_an_init_error() {
    let manifest = "[package]\nname = \"demo\"\n";
    let result = create_plugin_info_from_manifest(manifest);
    assert!(matches!(result, Err(PluginError::InitError(_))));
}

#[test]
fn malformed_manifest_is_an_init_error() {
    let result = create_plugin_info_from_manifest("[plugin\nname = ");
    assert!(matches!(result, Err(PluginError::InitError(_))));
}

#[test]
fn non_string_fields_count_as_missing() {
    let manifest = "[plugin]\nname = \"demo\"\nversion = 7\n";
    let info = create_plugin_info_from_manifest(manifest).unwrap();
    assert_eq!(info.version, "0.1.0");
}

#[test]
fn fields_default_when_absent() {
    let info = plugin_info_from_fields(None, None, None, None, None);
    assert_eq!(info.id, "unknown");
    assert_eq!(info.name, "Unknown Plugin");
    assert_eq!(info.version, "0.1.0");
    assert_eq!(info.description, "");
    assert_eq!(info.author, "");
    assert_eq!(info.category, PluginCategory::Other);
}

#[test]
fn fields_carry_through_when_present() {
    let info = plugin_info_from_fields(
        Some("demo".to_string()),
        Some("9.9.9".to_string()),
        Some("a demo".to_string()),
        Some("someone".to_string()),
        Some("wellness".to_string()),
    );
    assert_eq!(info.id, "demo");
    assert_eq!(info.name, "demo");
    assert_eq!(info.version, "9.9.9");
    assert_eq!(info.description, "a demo");
    assert_eq!(info.author, "someone");
    assert_eq!(info.category, PluginCategory::Wellness);
}
