//! Leaf value types: colors, line styles, border dash styles.
//!
//! Their internal shape is defined by the external schema, not by this
//! library: a descriptor only holds one and embeds its document form
//! unchanged when it serializes. Each therefore carries an
//! already-transcoded document value, chosen by the caller.

use vstd::prelude::*;

use crate::document::Value;
use crate::document::ValueModel;

verus! {

/// A color specification, carried opaquely in its document form.
#[derive(Clone, Debug, PartialEq)]
pub struct Color {
    pub value: Value,
}

impl Color {
    pub fn new(value: Value) -> (r: Color)
        ensures
            r == (Color { value }),
    {
        Color { value }
    }

    /// The document value of an optional color field.
    pub fn opt_value(o: Option<Color>) -> (r: Option<Value>)
        ensures
            crate::document::value_model(r) == color_model(o),
    {
        match o {
            Option::Some(c) => Option::Some(c.value),
            Option::None => Option::None,
        }
    }
}

/// A line-style specification, carried opaquely in its document form.
#[derive(Clone, Debug, PartialEq)]
pub struct LineStyle {
    pub value: Value,
}

impl LineStyle {
    pub fn new(value: Value) -> (r: LineStyle)
        ensures
            r == (LineStyle { value }),
    {
        LineStyle { value }
    }

    /// The document value of an optional line-style field.
    pub fn opt_value(o: Option<LineStyle>) -> (r: Option<Value>)
        ensures
            crate::document::value_model(r) == line_style_model(o),
    {
        match o {
            Option::Some(l) => Option::Some(l.value),
            Option::None => Option::None,
        }
    }
}

/// A border dash-style specification, carried opaquely in its document form.
#[derive(Clone, Debug, PartialEq)]
pub struct BorderType {
    pub value: Value,
}

impl BorderType {
    pub fn new(value: Value) -> (r: BorderType)
        ensures
            r == (BorderType { value }),
    {
        BorderType { value }
    }

    /// The document value of an optional border-type field.
    pub fn opt_value(o: Option<BorderType>) -> (r: Option<Value>)
        ensures
            crate::document::value_model(r) == border_type_model(o),
    {
        match o {
            Option::Some(b) => Option::Some(b.value),
            Option::None => Option::None,
        }
    }
}

/// How an optional color field transcodes: its carried value, unchanged.
pub open spec fn color_model(o: Option<Color>) -> Option<ValueModel> {
    match o {
        Option::Some(c) => Option::Some(c.value@),
        Option::None => Option::None,
    }
}

/// How an optional line-style field transcodes: its carried value, unchanged.
pub open spec fn line_style_model(o: Option<LineStyle>) -> Option<ValueModel> {
    match o {
        Option::Some(l) => Option::Some(l.value@),
        Option::None => Option::None,
    }
}

/// How an optional border-type field transcodes: its carried value,
/// unchanged.
pub open spec fn border_type_model(o: Option<BorderType>) -> Option<ValueModel> {
    match o {
        Option::Some(b) => Option::Some(b.value@),
        Option::None => Option::None,
    }
}

} // verus!
