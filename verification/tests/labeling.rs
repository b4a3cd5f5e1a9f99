use smart_labeling::SmartLabelingPlugin;

#[test]
fn test_plugin_initialization() {
    let plugin = SmartLabelingPlugin::new();

    assert_eq!(plugin.name(), "AdiOS Smart Labeling");
    assert_eq!(plugin.version(), "0.1.0");
    assert!(!plugin.description().is_empty());
}

#[test]
fn test_pricing_tiers() {
    let plugin = SmartLabelingPlugin::new();

    let tiers = plugin.pricing_tiers();
    assert_eq!(tiers.len(), 3);

    assert_eq!(tiers[0].name, "Starter");
    assert_eq!(tiers[0].price, 100000);

    assert_eq!(tiers[1].name, "Professional");
    assert_eq!(tiers[1].price, 500000);

    assert_eq!(tiers[2].name, "Enterprise");
    assert_eq!(tiers[2].price, 2000000);
}

#[test]
fn test_supported_tasks() {
    let plugin = SmartLabelingPlugin::new();

    let tasks = plugin.supported_tasks();
    assert!(!tasks.is_empty());

    let task_ids: Vec<String> = tasks.iter().map(|t| t.id.clone()).collect();
    assert!(task_ids.contains(&"text_classification".to_string()));
    assert!(task_ids.contains(&"named_entity_recognition".to_string()));
    assert!(task_ids.contains(&"image_classification".to_string()));
    assert!(task_ids.contains(&"object_detection".to_string()));
}

#[test]
fn pricing_tier_features_are_fixed() {
    let plugin = SmartLabelingPlugin::new();
    let tiers = plugin.pricing_tiers();
    assert_eq!(tiers[0].features.len(), 5);
    assert_eq!(tiers[0].features[0], "Basic AI-assisted labeling");
    assert_eq!(tiers[1].features.len(), 6);
    assert_eq!(tiers[1].features[4], "Priority support");
    assert_eq!(tiers[2].features.len(), 6);
    assert_eq!(tiers[2].features[5], "On-premises deployment option");
}

#[test]
fn supported_task_formats_are_fixed() {
    let plugin = SmartLabelingPlugin::new();
    let tasks = plugin.supported_tasks();
    assert_eq!(tasks.len(), 4);
    assert_eq!(tasks[0].supported_formats, vec!["txt", "json", "csv"]);
    assert_eq!(tasks[1].supported_formats, vec!["txt", "json"]);
    assert_eq!(tasks[2].supported_formats, vec!["jpg", "png", "bmp"]);
    assert_eq!(tasks[3].supported_formats, vec!["jpg", "png"]);
}
