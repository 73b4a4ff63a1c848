pub mod document;
pub mod objective;
pub mod rules;

pub use document::generate_alerts;
pub use objective::{Alert, AlertView, Objective, ObjectiveView};
