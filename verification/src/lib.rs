//! XMILE document model helpers: typed attribute access, attribute lists,
//! XML event emission, enumerated attribute codecs and model validation.

pub mod actions;
pub mod button_events;
pub mod de;
pub mod diagram;
pub mod errors;
pub mod grouping;
pub mod links;
pub mod model;
pub mod object_events;
pub mod objects;
pub mod schema;
pub mod serialize;
pub mod ser;
pub mod style;
pub mod tables;
pub mod text;
pub mod validation;
pub mod variable_events;
pub mod variables;
pub mod view;
