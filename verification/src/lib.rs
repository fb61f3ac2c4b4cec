//! A typed model for the option documents of a declarative charting runtime.
//!
//! A caller builds a descriptor of a chart element (a label, its connector
//! line, layout hints, item styling) field by field, and serializes it to a
//! document: an ordered list of key/value entries in exactly the shape the
//! external schema expects. Fields that were never set are omitted entirely,
//! never emitted as null.

pub mod document;
pub mod item_style;
pub mod label;
pub mod leaf;
pub mod tooltip_trigger;

pub use document::Document;
pub use document::Number;
pub use document::Value;
pub use item_style::ItemStyle;
pub use label::Align;
pub use label::Label;
pub use label::LabelLayout;
pub use label::LabelLine;
pub use label::Position;
pub use label::VerticalAlign;
pub use leaf::BorderType;
pub use leaf::Color;
pub use leaf::LineStyle;
pub use tooltip_trigger::TooltipTrigger;
