//! A hosted extension unit: the lifecycle, health and sync state machine of a
//! plugin that a larger host runtime discovers, initializes, starts,
//! periodically drives and stops, together with the unit's identity manifest
//! and its inter-unit messaging contract.

pub mod errors;
pub mod health;
pub mod labeling;
pub mod lifecycle;
pub mod manifest;
pub mod message;

pub use errors::PluginError;
pub use errors::PluginResult;
pub use health::HealthStatus;
pub use labeling::LabelingTask;
pub use labeling::PricingTier;
pub use labeling::ProjectStatus;
pub use labeling::SmartLabelingPlugin;
pub use lifecycle::AdiosPlugin;
pub use lifecycle::AppContext;
pub use lifecycle::EventBus;
pub use lifecycle::PluginState;
pub use manifest::PluginCategory;
pub use manifest::PluginInfo;
pub use message::MessageValue;
