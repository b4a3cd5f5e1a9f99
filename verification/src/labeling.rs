use vstd::prelude::*;

use crate::manifest::PluginCategory;
use crate::manifest::PluginInfo;

verus! {

/// The states a labeling project moves through; part of the unit's
/// demonstration surface, a downstream consumer of the core lifecycle.
#[derive(Debug, Clone, Copy, PartialEq, Eq, Structural)]
pub enum ProjectStatus {
    Created,
    InProgress,
    Completed,
    Failed,
}

/// One pricing tier of the labeling service: a display name, a monthly price
/// in cents, and the features the tier includes.
#[derive(Debug, Clone, PartialEq, Eq)]
pub struct PricingTier {
    pub name: String,
    pub price: u32,
    pub features: Vec<String>,
}

/// One labeling task kind the unit supports, with the file formats it
/// accepts.
#[derive(Debug, Clone, PartialEq, Eq)]
pub struct LabelingTask {
    pub id: String,
    pub name: String,
    pub description: String,
    pub supported_formats: Vec<String>,
}

/// The smart-labeling unit's public face: its identity, plus the fixed
/// pricing-tier and task tables it advertises.
#[derive(Debug)]
pub struct SmartLabelingPlugin {
    pub info: PluginInfo,
}

impl SmartLabelingPlugin {
    /// A smart-labeling unit under its fixed identity.
    pub fn new() -> (plugin: SmartLabelingPlugin)
        ensures
            plugin.info.id@ == "adios.smart-labeling"@,
            plugin.info.name@ == "AdiOS Smart Labeling"@,
            plugin.info.version@ == "0.1.0"@,
            plugin.info.description@ == "AI-powered smart labeling and annotation platform"@,
            plugin.info.author@ == "TridentBiz Team"@,
            plugin.info.category == PluginCategory::Integration,
    {
        SmartLabelingPlugin {
            info: PluginInfo {
                id: "adios.smart-labeling".to_owned(),
                name: "AdiOS Smart Labeling".to_owned(),
                version: "0.1.0".to_owned(),
                description: "AI-powered smart labeling and annotation platform".to_owned(),
                author: "TridentBiz Team".to_owned(),
                category: PluginCategory::Integration,
            },
        }
    }

    /// The unit's display name.
    pub fn name(&self) -> (name: &str)
        ensures
            name@ == self.info.name@,
    {
        self.info.name.as_str()
    }

    /// The unit's version string.
    pub fn version(&self) -> (version: &str)
        ensures
            version@ == self.info.version@,
    {
        self.info.version.as_str()
    }

    /// The unit's description.
    pub fn description(&self) -> (description: &str)
        ensures
            description@ == self.info.description@,
    {
        self.info.description.as_str()
    }

    /// The three pricing tiers the service offers, cheapest first.
    pub fn pricing_tiers(&self) -> (tiers: Vec<PricingTier>)
        ensures
            tiers@.len() == 3,
            tiers@[0].name@ == "Starter"@,
            tiers@[0].price == 100000,
            tiers@[0].features@.len() == 5,
            tiers@[0].features@[0]@ == "Basic AI-assisted labeling"@,
            tiers@[0].features@[1]@ == "Up to 1,000 samples per month"@,
            tiers@[0].features@[2]@ == "Standard annotation types"@,
            tiers@[0].features@[3]@ == "Email support"@,
            tiers@[0].features@[4]@ == "Basic quality checks"@,
            tiers@[1].name@ == "Professional"@,
            tiers@[1].price == 500000,
            tiers@[1].features@.len() == 6,
            tiers@[1].features@[0]@ == "Advanced AI-assisted labeling"@,
            tiers@[1].features@[1]@ == "Up to 10,000 samples per month"@,
            tiers@[1].features@[2]@ == "Active learning optimization"@,
            tiers@[1].features@[3]@ == "Custom annotation schemas"@,
            tiers@[1].features@[4]@ == "Priority support"@,
            tiers@[1].features@[5]@ == "Team collaboration features"@,
            tiers@[2].name@ == "Enterprise"@,
            tiers@[2].price == 2000000,
            tiers@[2].features@.len() == 6,
            tiers@[2].features@[0]@ == "Context-aware labeling with Organization Brain"@,
            tiers@[2].features@[1]@ == "Unlimited samples"@,
            tiers@[2].features@[2]@ == "Custom labeling models"@,
            tiers@[2].features@[3]@ == "Advanced quality assurance"@,
            tiers@[2].features@[4]@ == "Dedicated support team"@,
            tiers@[2].features@[5]@ == "On-premises deployment option"@,
    {
        let mut starter_features: Vec<String> = Vec::new();
        starter_features.push("Basic AI-assisted labeling".to_owned());
        starter_features.push("Up to 1,000 samples per month".to_owned());
        starter_features.push("Standard annotation types".to_owned());
        starter_features.push("Email support".to_owned());
        starter_features.push("Basic quality checks".to_owned());
        let mut professional_features: Vec<String> = Vec::new();
        professional_features.push("Advanced AI-assisted labeling".to_owned());
        professional_features.push("Up to 10,000 samples per month".to_owned());
        professional_features.push("Active learning optimization".to_owned());
        professional_features.push("Custom annotation schemas".to_owned());
        professional_features.push("Priority support".to_owned());
        professional_features.push("Team collaboration features".to_owned());
        let mut enterprise_features: Vec<String> = Vec::new();
        enterprise_features.push("Context-aware labeling with Organization Brain".to_owned());
        enterprise_features.push("Unlimited samples".to_owned());
        enterprise_features.push("Custom labeling models".to_owned());
        enterprise_features.push("Advanced quality assurance".to_owned());
        enterprise_features.push("Dedicated support team".to_owned());
        enterprise_features.push("On-premises deployment option".to_owned());
        let mut tiers: Vec<PricingTier> = Vec::new();
        tiers.push(
            PricingTier { name: "Starter".to_owned(), price: 100000, features: starter_features },
        );
        tiers.push(
            PricingTier {
                name: "Professional".to_owned(),
                price: 500000,
                features: professional_features,
            },
        );
        tiers.push(
            PricingTier {
                name: "Enterprise".to_owned(),
                price: 2000000,
                features: enterprise_features,
            },
        );
        tiers
    }

    /// The labeling task kinds the unit supports.
    pub fn supported_tasks(&self) -> (tasks: Vec<LabelingTask>)
        ensures
            tasks@.len() == 4,
            tasks@[0].id@ == "text_classification"@,
            tasks@[0].name@ == "Text Classification"@,
            tasks@[0].description@ == "Classify text documents into predefined categories"@,
            tasks@[0].supported_formats@.len() == 3,
            tasks@[0].supported_formats@[0]@ == "txt"@,
            tasks@[0].supported_formats@[1]@ == "json"@,
            tasks@[0].supported_formats@[2]@ == "csv"@,
            tasks@[1].id@ == "named_entity_recognition"@,
            tasks@[1].name@ == "Named Entity Recognition"@,
            tasks@[1].description@ == "Identify and classify entities in text"@,
            tasks@[1].supported_formats@.len() == 2,
            tasks@[1].supported_formats@[0]@ == "txt"@,
            tasks@[1].supported_formats@[1]@ == "json"@,
            tasks@[2].id@ == "image_classification"@,
            tasks@[2].name@ == "Image Classification"@,
            tasks@[2].description@ == "Classify images into predefined categories"@,
            tasks@[2].supported_formats@.len() == 3,
            tasks@[2].supported_formats@[0]@ == "jpg"@,
            tasks@[2].supported_formats@[1]@ == "png"@,
            tasks@[2].supported_formats@[2]@ == "bmp"@,
            tasks@[3].id@ == "object_detection"@,
            tasks@[3].name@ == "Object Detection"@,
            tasks@[3].description@ == "Detect and locate objects in images"@,
            tasks@[3].supported_formats@.len() == 2,
            tasks@[3].supported_formats@[0]@ == "jpg"@,
            tasks@[3].supported_formats@[1]@ == "png"@,
    {
        let mut text_formats: Vec<String> = Vec::new();
        text_formats.push("txt".to_owned());
        text_formats.push("json".to_owned());
        text_formats.push("csv".to_owned());
        let mut entity_formats: Vec<String> = Vec::new();
        entity_formats.push("txt".to_owned());
        entity_formats.push("json".to_owned());
        let mut image_formats: Vec<String> = Vec::new();
        image_formats.push("jpg".to_owned());
        image_formats.push("png".to_owned());
        image_formats.push("bmp".to_owned());
        let mut detection_formats: Vec<String> = Vec::new();
        detection_formats.push("jpg".to_owned());
        detection_formats.push("png".to_owned());
        let mut tasks: Vec<LabelingTask> = Vec::new();
        tasks.push(
            LabelingTask {
                id: "text_classification".to_owned(),
                name: "Text Classification".to_owned(),
                description: "Classify text documents into predefined categories".to_owned(),
                supported_formats: text_formats,
            },
        );
        tasks.push(
            LabelingTask {
                id: "named_entity_recognition".to_owned(),
                name: "Named Entity Recognition".to_owned(),
                description: "Identify and classify entities in text".to_owned(),
                supported_formats: entity_formats,
            },
        );
        tasks.push(
            LabelingTask {
                id: "image_classification".to_owned(),
                name: "Image Classification".to_owned(),
                description: "Classify images into predefined categories".to_owned(),
                supported_formats: image_formats,
            },
        );
        tasks.push(
            LabelingTask {
                id: "object_detection".to_owned(),
                name: "Object Detection".to_owned(),
                description: "Detect and locate objects in images".to_owned(),
                supported_formats: detection_formats,
            },
        );
        tasks
    }
}

} // verus!
