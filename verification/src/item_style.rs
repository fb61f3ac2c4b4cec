//! The item-style descriptor: visual styling of a drawn shape.

use vstd::prelude::*;

use crate::document::Document;
use crate::document::Number;
use crate::document::ValueModel;
use crate::document::num_model;
use crate::document::opt_entry;
use crate::leaf::BorderType;
use crate::leaf::Color;
use crate::leaf::border_type_model;
use crate::leaf::color_model;

verus! {

/// Visual styling of a drawn shape (bar, point, area). Every field is
/// optional: a field never set contributes nothing to the serialized
/// document.
#[derive(Clone, Debug, PartialEq)]
pub struct ItemStyle {
    pub color: Option<Color>,
    pub border_color: Option<Color>,
    pub border_width: Option<Number>,
    pub border_radius: Option<Number>,
    pub border_type: Option<BorderType>,
    pub opacity: Option<Number>,
    pub shadow_color: Option<Color>,
    pub shadow_blur: Option<Number>,
}

impl ItemStyle {
    /// The descriptor with every field absent.
    pub open spec fn spec_empty() -> ItemStyle {
        ItemStyle {
            color: None,
            border_color: None,
            border_width: None,
            border_radius: None,
            border_type: None,
            opacity: None,
            shadow_color: None,
            shadow_blur: None,
        }
    }

    pub open spec fn with_color(self, color: Color) -> ItemStyle {
        ItemStyle { color: Some(color), ..self }
    }

    pub open spec fn with_border_color(self, border_color: Color) -> ItemStyle {
        ItemStyle { border_color: Some(border_color), ..self }
    }

    pub open spec fn with_border_width(self, border_width: Number) -> ItemStyle {
        ItemStyle { border_width: Some(border_width), ..self }
    }

    pub open spec fn with_border_radius(self, border_radius: Number) -> ItemStyle {
        ItemStyle { border_radius: Some(border_radius), ..self }
    }

    pub open spec fn with_border_type(self, border_type: BorderType) -> ItemStyle {
        ItemStyle { border_type: Some(border_type), ..self }
    }

    pub open spec fn with_opacity(self, opacity: Number) -> ItemStyle {
        ItemStyle { opacity: Some(opacity), ..self }
    }

    pub open spec fn with_shadow_color(self, shadow_color: Color) -> ItemStyle {
        ItemStyle { shadow_color: Some(shadow_color), ..self }
    }

    pub open spec fn with_shadow_blur(self, shadow_blur: Number) -> ItemStyle {
        ItemStyle { shadow_blur: Some(shadow_blur), ..self }
    }

    /// The document an item-style descriptor serializes to: one entry per
    /// present field, in declaration order, keyed by the external schema's
    /// name.
    pub open spec fn doc_model(self) -> Seq<(Seq<char>, ValueModel)> {
        Seq::<(Seq<char>, ValueModel)>::empty() + opt_entry("color"@, color_model(self.color))
            + opt_entry("borderColor"@, color_model(self.border_color)) + opt_entry(
            "borderWidth"@,
            num_model(self.border_width),
        ) + opt_entry("borderRadius"@, num_model(self.border_radius)) + opt_entry(
            "borderType"@,
            border_type_model(self.border_type),
        ) + opt_entry("opacity"@, num_model(self.opacity)) + opt_entry(
            "shadowColor"@,
            color_model(self.shadow_color),
        ) + opt_entry("shadowBlur"@, num_model(self.shadow_blur))
    }

    /// An item style with every field absent.
    pub fn new() -> (r: ItemStyle)
        ensures
            r == ItemStyle::spec_empty(),
    {
        ItemStyle {
            color: None,
            border_color: None,
            border_width: None,
            border_radius: None,
            border_type: None,
            opacity: None,
            shadow_color: None,
            shadow_blur: None,
        }
    }

    pub fn color(self, color: Color) -> (r: ItemStyle)
        ensures
            r == self.with_color(color),
    {
        ItemStyle { color: Some(color), ..self }
    }

    pub fn border_color(self, border_color: Color) -> (r: ItemStyle)
        ensures
            r == self.with_border_color(border_color),
    {
        ItemStyle { border_color: Some(border_color), ..self }
    }

    pub fn border_width(self, border_width: Number) -> (r: ItemStyle)
        ensures
            r == self.with_border_width(border_width),
    {
        ItemStyle { border_width: Some(border_width), ..self }
    }

    pub fn border_radius(self, border_radius: Number) -> (r: ItemStyle)
        ensures
            r == self.with_border_radius(border_radius),
    {
        ItemStyle { border_radius: Some(border_radius), ..self }
    }

    pub fn border_type(self, border_type: BorderType) -> (r: ItemStyle)
        ensures
            r == self.with_border_type(border_type),
    {
        ItemStyle { border_type: Some(border_type), ..self }
    }

    pub fn opacity(self, opacity: Number) -> (r: ItemStyle)
        ensures
            r == self.with_opacity(opacity),
    {
        ItemStyle { opacity: Some(opacity), ..self }
    }

    pub fn shadow_color(self, shadow_color: Color) -> (r: ItemStyle)
        ensures
            r == self.with_shadow_color(shadow_color),
    {
        ItemStyle { shadow_color: Some(shadow_color), ..self }
    }

    pub fn shadow_blur(self, shadow_blur: Number) -> (r: ItemStyle)
        ensures
            r == self.with_shadow_blur(shadow_blur),
    {
        ItemStyle { shadow_blur: Some(shadow_blur), ..self }
    }

    /// Serializes the item style: exactly the present fields, in declaration
    /// order, under their external-schema keys.
    pub fn serialize(self) -> (r: Document)
        ensures
            r@ == self.doc_model(),
    {
        let ItemStyle {
            color,
            border_color,
            border_width,
            border_radius,
            border_type,
            opacity,
            shadow_color,
            shadow_blur,
        } = self;
        let mut d = Document::new();
        d.push_opt("color", Color::opt_value(color));
        d.push_opt("borderColor", Color::opt_value(border_color));
        d.push_num("borderWidth", border_width);
        d.push_num("borderRadius", border_radius);
        d.push_opt("borderType", BorderType::opt_value(border_type));
        d.push_num("opacity", opacity);
        d.push_opt("shadowColor", Color::opt_value(shadow_color));
        d.push_num("shadowBlur", shadow_blur);
        d
    }
}

/// One setter application on an `ItemStyle`: which field it targets and the
/// value it records. Used to state laws that hold uniformly over all
/// setters.
pub enum ItemStyleSetter {
    Color(Color),
    BorderColor(Color),
    BorderWidth(Number),
    BorderRadius(Number),
    BorderType(BorderType),
    Opacity(Number),
    ShadowColor(Color),
    ShadowBlur(Number),
}

impl ItemStyleSetter {
    /// The targeted field, as its position in declaration order.
    pub open spec fn field_index(self) -> int {
        match self {
            ItemStyleSetter::Color(_) => 0,
            ItemStyleSetter::BorderColor(_) => 1,
            ItemStyleSetter::BorderWidth(_) => 2,
            ItemStyleSetter::BorderRadius(_) => 3,
            ItemStyleSetter::BorderType(_) => 4,
            ItemStyleSetter::Opacity(_) => 5,
            ItemStyleSetter::ShadowColor(_) => 6,
            ItemStyleSetter::ShadowBlur(_) => 7,
        }
    }

    /// The descriptor the setter produces from `s`.
    pub open spec fn apply(self, s: ItemStyle) -> ItemStyle {
        match self {
            ItemStyleSetter::Color(v) => s.with_color(v),
            ItemStyleSetter::BorderColor(v) => s.with_border_color(v),
            ItemStyleSetter::BorderWidth(v) => s.with_border_width(v),
            ItemStyleSetter::BorderRadius(v) => s.with_border_radius(v),
            ItemStyleSetter::BorderType(v) => s.with_border_type(v),
            ItemStyleSetter::Opacity(v) => s.with_opacity(v),
            ItemStyleSetter::ShadowColor(v) => s.with_shadow_color(v),
            ItemStyleSetter::ShadowBlur(v) => s.with_shadow_blur(v),
        }
    }

    /// The external-schema key of the targeted field.
    pub open spec fn key(self) -> Seq<char> {
        match self {
            ItemStyleSetter::Color(_) => "color"@,
            ItemStyleSetter::BorderColor(_) => "borderColor"@,
            ItemStyleSetter::BorderWidth(_) => "borderWidth"@,
            ItemStyleSetter::BorderRadius(_) => "borderRadius"@,
            ItemStyleSetter::BorderType(_) => "borderType"@,
            ItemStyleSetter::Opacity(_) => "opacity"@,
            ItemStyleSetter::ShadowColor(_) => "shadowColor"@,
            ItemStyleSetter::ShadowBlur(_) => "shadowBlur"@,
        }
    }

    /// The transcoded document value of the recorded argument.
    pub open spec fn value(self) -> ValueModel {
        match self {
            ItemStyleSetter::Color(v) => v.value@,
            ItemStyleSetter::BorderColor(v) => v.value@,
            ItemStyleSetter::BorderWidth(v) => ValueModel::Num(v.bits),
            ItemStyleSetter::BorderRadius(v) => ValueModel::Num(v.bits),
            ItemStyleSetter::BorderType(v) => v.value@,
            ItemStyleSetter::Opacity(v) => ValueModel::Num(v.bits),
            ItemStyleSetter::ShadowColor(v) => v.value@,
            ItemStyleSetter::ShadowBlur(v) => ValueModel::Num(v.bits),
        }
    }
}

/// An item style with no field set serializes to the empty document: no keys
/// at all.
pub proof fn lemma_item_style_default_serializes_empty()
    ensures
        ItemStyle::spec_empty().doc_model() == Seq::<(Seq<char>, ValueModel)>::empty(),
{
    assert(ItemStyle::spec_empty().doc_model() =~= Seq::<(Seq<char>, ValueModel)>::empty());
}

/// Exactly one setter applied to the default item style yields a document
/// with exactly one entry: the targeted field's external-schema key and the
/// transcoded value; every other field stays absent and unrepresented.
pub proof fn lemma_item_style_single_setter(s: ItemStyleSetter)
    ensures
        s.apply(ItemStyle::spec_empty()).doc_model() == seq![(s.key(), s.value())],
{
    assert(s.apply(ItemStyle::spec_empty()).doc_model() =~= seq![(s.key(), s.value())]);
}

/// Item-style setters that target different fields commute: the resulting
/// descriptor, and with it the serialized document, does not depend on the
/// order in which they are applied.
pub proof fn lemma_item_style_setters_commute(s: ItemStyle, a: ItemStyleSetter, b: ItemStyleSetter)
    requires
        a.field_index() != b.field_index(),
    ensures
        b.apply(a.apply(s)) == a.apply(b.apply(s)),
        b.apply(a.apply(s)).doc_model() == a.apply(b.apply(s)).doc_model(),
{
}

} // verus!
