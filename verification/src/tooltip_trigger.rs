//! The tooltip trigger mode: what user interaction raises a tooltip.

use vstd::prelude::*;

use crate::document::Value;

verus! {

/// What user interaction triggers a tooltip. Standalone closed enumeration,
/// not an optionality container. Serialized as the plain lowercase literal,
/// `Axis` as `"axis"`; `NoTrigger` stands for the schema's `"none"`.
#[derive(Clone, Copy, Debug, PartialEq, Eq, Structural)]
pub enum TooltipTrigger {
    Item,
    Axis,
    NoTrigger,
}

impl TooltipTrigger {
    /// The literal the external schema defines for each variant.
    pub open spec fn spec_text(self) -> Seq<char> {
        match self {
            TooltipTrigger::Item => "item"@,
            TooltipTrigger::Axis => "axis"@,
            TooltipTrigger::NoTrigger => "none"@,
        }
    }

    /// The literal, as text.
    pub fn to_text(&self) -> (r: String)
        ensures
            r@ == self.spec_text(),
    {
        match self {
            TooltipTrigger::Item => String::from_str("item"),
            TooltipTrigger::Axis => String::from_str("axis"),
            TooltipTrigger::NoTrigger => String::from_str("none"),
        }
    }

    /// The document value a trigger mode serializes to.
    pub fn to_value(&self) -> (r: Value)
        ensures
            r@ == crate::document::ValueModel::Text(self.spec_text()),
    {
        Value::Text(self.to_text())
    }
}

} // verus!
