//! The label descriptor and its enumerations.
//!
//! A label describes how a data point's text label is drawn. Every field is
//! optional: a field never set contributes nothing to the serialized
//! document. Field keys follow the external schema's lower camel case;
//! enumeration literals follow the fixed convention of each enumeration.

use vstd::prelude::*;

use crate::document::Document;
use crate::document::Number;
use crate::document::Value;
use crate::document::ValueModel;
use crate::document::bool_model;
use crate::document::num_model;
use crate::document::opt_entry;
use crate::document::pair_model;
use crate::document::quad_model;
use crate::document::text_model;
use crate::document::value_model;
use crate::leaf::Color;
use crate::leaf::LineStyle;
use crate::leaf::color_model;
use crate::leaf::line_style_model;

verus! {

/// Where a label stands relative to the element it decorates. Serialized as
/// the external schema's camel-joined literal, `InsideTopLeft` as
/// `"insideTopLeft"`.
#[derive(Clone, Copy, Debug, PartialEq, Eq, Structural)]
pub enum Position {
    Top,
    Left,
    Right,
    Bottom,
    Inside,
    InsideLeft,
    InsideRight,
    InsideTop,
    InsideBottom,
    InsideTopLeft,
    InsideBottomLeft,
    InsideTopRight,
    InsideBottomRight,
    Start,
    Outside,
    Middle,
}

impl Position {
    /// The literal the external schema defines for each variant.
    pub open spec fn spec_text(self) -> Seq<char> {
        match self {
            Position::Top => "top"@,
            Position::Left => "left"@,
            Position::Right => "right"@,
            Position::Bottom => "bottom"@,
            Position::Inside => "inside"@,
            Position::InsideLeft => "insideLeft"@,
            Position::InsideRight => "insideRight"@,
            Position::InsideTop => "insideTop"@,
            Position::InsideBottom => "insideBottom"@,
            Position::InsideTopLeft => "insideTopLeft"@,
            Position::InsideBottomLeft => "insideBottomLeft"@,
            Position::InsideTopRight => "insideTopRight"@,
            Position::InsideBottomRight => "insideBottomRight"@,
            Position::Start => "start"@,
            Position::Outside => "outside"@,
            Position::Middle => "middle"@,
        }
    }

    /// The literal, as text.
    pub fn to_text(&self) -> (r: String)
        ensures
            r@ == self.spec_text(),
    {
        match self {
            Position::Top => String::from_str("top"),
            Position::Left => String::from_str("left"),
            Position::Right => String::from_str("right"),
            Position::Bottom => String::from_str("bottom"),
            Position::Inside => String::from_str("inside"),
            Position::InsideLeft => String::from_str("insideLeft"),
            Position::InsideRight => String::from_str("insideRight"),
            Position::InsideTop => String::from_str("insideTop"),
            Position::InsideBottom => String::from_str("insideBottom"),
            Position::InsideTopLeft => String::from_str("insideTopLeft"),
            Position::InsideBottomLeft => String::from_str("insideBottomLeft"),
            Position::InsideTopRight => String::from_str("insideTopRight"),
            Position::InsideBottomRight => String::from_str("insideBottomRight"),
            Position::Start => String::from_str("start"),
            Position::Outside => String::from_str("outside"),
            Position::Middle => String::from_str("middle"),
        }
    }

    /// The document value of an optional position field.
    pub fn opt_value(o: Option<Position>) -> (r: Option<Value>)
        ensures
            value_model(r) == position_model(o),
    {
        match o {
            Option::Some(p) => Option::Some(Value::Text(p.to_text())),
            Option::None => Option::None,
        }
    }
}

/// How an optional position field transcodes: its literal, as text.
pub open spec fn position_model(o: Option<Position>) -> Option<ValueModel> {
    match o {
        Option::Some(p) => Option::Some(ValueModel::Text(p.spec_text())),
        Option::None => Option::None,
    }
}

/// Horizontal alignment of label text. Serialized as the plain lowercase
/// literal, `Center` as `"center"`.
#[derive(Clone, Copy, Debug, PartialEq, Eq, Structural)]
pub enum Align {
    Left,
    Center,
    Right,
}

impl Align {
    /// The literal the external schema defines for each variant.
    pub open spec fn spec_text(self) -> Seq<char> {
        match self {
            Align::Left => "left"@,
            Align::Center => "center"@,
            Align::Right => "right"@,
        }
    }

    /// The literal, as text.
    pub fn to_text(&self) -> (r: String)
        ensures
            r@ == self.spec_text(),
    {
        match self {
            Align::Left => String::from_str("left"),
            Align::Center => String::from_str("center"),
            Align::Right => String::from_str("right"),
        }
    }

    /// The document value of an optional alignment field.
    pub fn opt_value(o: Option<Align>) -> (r: Option<Value>)
        ensures
            value_model(r) == align_model(o),
    {
        match o {
            Option::Some(a) => Option::Some(Value::Text(a.to_text())),
            Option::None => Option::None,
        }
    }
}

/// How an optional alignment field transcodes: its literal, as text.
pub open spec fn align_model(o: Option<Align>) -> Option<ValueModel> {
    match o {
        Option::Some(a) => Option::Some(ValueModel::Text(a.spec_text())),
        Option::None => Option::None,
    }
}

/// Vertical alignment of label text. Serialized as the plain lowercase
/// literal, `Middle` as `"middle"`.
#[derive(Clone, Copy, Debug, PartialEq, Eq, Structural)]
pub enum VerticalAlign {
    Top,
    Middle,
    Bottom,
}

impl VerticalAlign {
    /// The literal the external schema defines for each variant.
    pub open spec fn spec_text(self) -> Seq<char> {
        match self {
            VerticalAlign::Top => "top"@,
            VerticalAlign::Middle => "middle"@,
            VerticalAlign::Bottom => "bottom"@,
        }
    }

    /// The literal, as text.
    pub fn to_text(&self) -> (r: String)
        ensures
            r@ == self.spec_text(),
    {
        match self {
            VerticalAlign::Top => String::from_str("top"),
            VerticalAlign::Middle => String::from_str("middle"),
            VerticalAlign::Bottom => String::from_str("bottom"),
        }
    }

    /// The document value of an optional vertical-alignment field.
    pub fn opt_value(o: Option<VerticalAlign>) -> (r: Option<Value>)
        ensures
            value_model(r) == vertical_align_model(o),
    {
        match o {
            Option::Some(v) => Option::Some(Value::Text(v.to_text())),
            Option::None => Option::None,
        }
    }
}

/// How an optional vertical-alignment field transcodes: its literal, as
/// text.
pub open spec fn vertical_align_model(o: Option<VerticalAlign>) -> Option<ValueModel> {
    match o {
        Option::Some(v) => Option::Some(ValueModel::Text(v.spec_text())),
        Option::None => Option::None,
    }
}

/// How a data point's text label is drawn. Starts all-absent; each setter
/// returns a copy with exactly that field made present.
#[derive(Clone, Debug, PartialEq)]
pub struct Label {
    pub show: Option<bool>,
    pub position: Option<Position>,
    pub distance: Option<Number>,
    pub rotate: Option<String>,
    pub offset: Option<(Number, Number)>,
    pub formatter: Option<String>,
    pub color: Option<Color>,
    pub font_size: Option<Number>,
    pub padding: Option<(Number, Number, Number, Number)>,
    pub align: Option<Align>,
    pub vertical_align: Option<VerticalAlign>,
    pub silent: Option<bool>,
}

impl Label {
    /// The descriptor with every field absent.
    pub open spec fn spec_empty() -> Label {
        Label {
            show: None,
            position: None,
            distance: None,
            rotate: None,
            offset: None,
            formatter: None,
            color: None,
            font_size: None,
            padding: None,
            align: None,
            vertical_align: None,
            silent: None,
        }
    }

    pub open spec fn with_show(self, show: bool) -> Label {
        Label { show: Some(show), ..self }
    }

    pub open spec fn with_position(self, position: Position) -> Label {
        Label { position: Some(position), ..self }
    }

    pub open spec fn with_distance(self, distance: Number) -> Label {
        Label { distance: Some(distance), ..self }
    }

    pub open spec fn with_rotate(self, rotate: String) -> Label {
        Label { rotate: Some(rotate), ..self }
    }

    pub open spec fn with_offset(self, offset: (Number, Number)) -> Label {
        Label { offset: Some(offset), ..self }
    }

    pub open spec fn with_formatter(self, formatter: String) -> Label {
        Label { formatter: Some(formatter), ..self }
    }

    pub open spec fn with_color(self, color: Color) -> Label {
        Label { color: Some(color), ..self }
    }

    pub open spec fn with_font_size(self, font_size: Number) -> Label {
        Label { font_size: Some(font_size), ..self }
    }

    pub open spec fn with_padding(self, padding: (Number, Number, Number, Number)) -> Label {
        Label { padding: Some(padding), ..self }
    }

    pub open spec fn with_align(self, align: Align) -> Label {
        Label { align: Some(align), ..self }
    }

    pub open spec fn with_vertical_align(self, vertical_align: VerticalAlign) -> Label {
        Label { vertical_align: Some(vertical_align), ..self }
    }

    pub open spec fn with_silent(self, silent: bool) -> Label {
        Label { silent: Some(silent), ..self }
    }

    /// The document a label serializes to: one entry per present field, in
    /// declaration order, keyed by the external schema's name.
    pub open spec fn doc_model(self) -> Seq<(Seq<char>, ValueModel)> {
        Seq::<(Seq<char>, ValueModel)>::empty() + opt_entry("show"@, bool_model(self.show))
            + opt_entry("position"@, position_model(self.position)) + opt_entry(
            "distance"@,
            num_model(self.distance),
        ) + opt_entry("rotate"@, text_model(self.rotate)) + opt_entry(
            "offset"@,
            pair_model(self.offset),
        ) + opt_entry("formatter"@, text_model(self.formatter)) + opt_entry(
            "color"@,
            color_model(self.color),
        ) + opt_entry("fontSize"@, num_model(self.font_size)) + opt_entry(
            "padding"@,
            quad_model(self.padding),
        ) + opt_entry("align"@, align_model(self.align)) + opt_entry(
            "verticalAlign"@,
            vertical_align_model(self.vertical_align),
        ) + opt_entry("silent"@, bool_model(self.silent))
    }

    /// A label with every field absent.
    pub fn new() -> (r: Label)
        ensures
            r == Label::spec_empty(),
    {
        Label {
            show: None,
            position: None,
            distance: None,
            rotate: None,
            offset: None,
            formatter: None,
            color: None,
            font_size: None,
            padding: None,
            align: None,
            vertical_align: None,
            silent: None,
        }
    }

    pub fn show(self, show: bool) -> (r: Label)
        ensures
            r == self.with_show(show),
    {
        Label { show: Some(show), ..self }
    }

    pub fn position(self, position: Position) -> (r: Label)
        ensures
            r == self.with_position(position),
    {
        Label { position: Some(position), ..self }
    }

    pub fn distance(self, distance: Number) -> (r: Label)
        ensures
            r == self.with_distance(distance),
    {
        Label { distance: Some(distance), ..self }
    }

    pub fn rotate(self, rotate: String) -> (r: Label)
        ensures
            r == self.with_rotate(rotate),
    {
        Label { rotate: Some(rotate), ..self }
    }

    pub fn offset(self, offset: (Number, Number)) -> (r: Label)
        ensures
            r == self.with_offset(offset),
    {
        Label { offset: Some(offset), ..self }
    }

    pub fn formatter(self, formatter: String) -> (r: Label)
        ensures
            r == self.with_formatter(formatter),
    {
        Label { formatter: Some(formatter), ..self }
    }

    pub fn color(self, color: Color) -> (r: Label)
        ensures
            r == self.with_color(color),
    {
        Label { color: Some(color), ..self }
    }

    pub fn font_size(self, font_size: Number) -> (r: Label)
        ensures
            r == self.with_font_size(font_size),
    {
        Label { font_size: Some(font_size), ..self }
    }

    pub fn padding(self, padding: (Number, Number, Number, Number)) -> (r: Label)
        ensures
            r == self.with_padding(padding),
    {
        Label { padding: Some(padding), ..self }
    }

    pub fn align(self, align: Align) -> (r: Label)
        ensures
            r == self.with_align(align),
    {
        Label { align: Some(align), ..self }
    }

    pub fn vertical_align(self, vertical_align: VerticalAlign) -> (r: Label)
        ensures
            r == self.with_vertical_align(vertical_align),
    {
        Label { vertical_align: Some(vertical_align), ..self }
    }

    pub fn silent(self, silent: bool) -> (r: Label)
        ensures
            r == self.with_silent(silent),
    {
        Label { silent: Some(silent), ..self }
    }

    /// Serializes the label: exactly the present fields, in declaration
    /// order, under their external-schema keys.
    pub fn serialize(self) -> (r: Document)
        ensures
            r@ == self.doc_model(),
    {
        let Label {
            show,
            position,
            distance,
            rotate,
            offset,
            formatter,
            color,
            font_size,
            padding,
            align,
            vertical_align,
            silent,
        } = self;
        let mut d = Document::new();
        d.push_bool("show", show);
        d.push_opt("position", Position::opt_value(position));
        d.push_num("distance", distance);
        d.push_text("rotate", rotate);
        d.push_pair("offset", offset);
        d.push_text("formatter", formatter);
        d.push_opt("color", Color::opt_value(color));
        d.push_num("fontSize", font_size);
        d.push_quad("padding", padding);
        d.push_opt("align", Align::opt_value(align));
        d.push_opt("verticalAlign", VerticalAlign::opt_value(vertical_align));
        d.push_bool("silent", silent);
        d
    }
}

/// One setter application on a `Label`: which field it targets and the value
/// it records. Used to state laws that hold uniformly over all setters.
pub enum LabelSetter {
    Show(bool),
    Position(Position),
    Distance(Number),
    Rotate(String),
    Offset((Number, Number)),
    Formatter(String),
    Color(Color),
    FontSize(Number),
    Padding((Number, Number, Number, Number)),
    Align(Align),
    VerticalAlign(VerticalAlign),
    Silent(bool),
}

impl LabelSetter {
    /// The targeted field, as its position in declaration order.
    pub open spec fn field_index(self) -> int {
        match self {
            LabelSetter::Show(_) => 0,
            LabelSetter::Position(_) => 1,
            LabelSetter::Distance(_) => 2,
            LabelSetter::Rotate(_) => 3,
            LabelSetter::Offset(_) => 4,
            LabelSetter::Formatter(_) => 5,
            LabelSetter::Color(_) => 6,
            LabelSetter::FontSize(_) => 7,
            LabelSetter::Padding(_) => 8,
            LabelSetter::Align(_) => 9,
            LabelSetter::VerticalAlign(_) => 10,
            LabelSetter::Silent(_) => 11,
        }
    }

    /// The descriptor the setter produces from `l`.
    pub open spec fn apply(self, l: Label) -> Label {
        match self {
            LabelSetter::Show(v) => l.with_show(v),
            LabelSetter::Position(v) => l.with_position(v),
            LabelSetter::Distance(v) => l.with_distance(v),
            LabelSetter::Rotate(v) => l.with_rotate(v),
            LabelSetter::Offset(v) => l.with_offset(v),
            LabelSetter::Formatter(v) => l.with_formatter(v),
            LabelSetter::Color(v) => l.with_color(v),
            LabelSetter::FontSize(v) => l.with_font_size(v),
            LabelSetter::Padding(v) => l.with_padding(v),
            LabelSetter::Align(v) => l.with_align(v),
            LabelSetter::VerticalAlign(v) => l.with_vertical_align(v),
            LabelSetter::Silent(v) => l.with_silent(v),
        }
    }

    /// The external-schema key of the targeted field.
    pub open spec fn key(self) -> Seq<char> {
        match self {
            LabelSetter::Show(_) => "show"@,
            LabelSetter::Position(_) => "position"@,
            LabelSetter::Distance(_) => "distance"@,
            LabelSetter::Rotate(_) => "rotate"@,
            LabelSetter::Offset(_) => "offset"@,
            LabelSetter::Formatter(_) => "formatter"@,
            LabelSetter::Color(_) => "color"@,
            LabelSetter::FontSize(_) => "fontSize"@,
            LabelSetter::Padding(_) => "padding"@,
            LabelSetter::Align(_) => "align"@,
            LabelSetter::VerticalAlign(_) => "verticalAlign"@,
            LabelSetter::Silent(_) => "silent"@,
        }
    }

    /// The transcoded document value of the recorded argument.
    pub open spec fn value(self) -> ValueModel {
        match self {
            LabelSetter::Show(v) => ValueModel::Bool(v),
            LabelSetter::Position(v) => ValueModel::Text(v.spec_text()),
            LabelSetter::Distance(v) => ValueModel::Num(v.bits),
            LabelSetter::Rotate(v) => ValueModel::Text(v@),
            LabelSetter::Offset(v) => ValueModel::NumArr(seq![v.0.bits, v.1.bits]),
            LabelSetter::Formatter(v) => ValueModel::Text(v@),
            LabelSetter::Color(v) => v.value@,
            LabelSetter::FontSize(v) => ValueModel::Num(v.bits),
            LabelSetter::Padding(v) => ValueModel::NumArr(
                seq![v.0.bits, v.1.bits, v.2.bits, v.3.bits],
            ),
            LabelSetter::Align(v) => ValueModel::Text(v.spec_text()),
            LabelSetter::VerticalAlign(v) => ValueModel::Text(v.spec_text()),
            LabelSetter::Silent(v) => ValueModel::Bool(v),
        }
    }
}

/// A label with no field set serializes to the empty document: no keys at
/// all.
pub proof fn lemma_label_default_serializes_empty()
    ensures
        Label::spec_empty().doc_model() == Seq::<(Seq<char>, ValueModel)>::empty(),
{
    assert(Label::spec_empty().doc_model() =~= Seq::<(Seq<char>, ValueModel)>::empty());
}

/// Exactly one setter applied to the default label yields a document with
/// exactly one entry: the targeted field's external-schema key and the
/// transcoded value; every other field stays absent and unrepresented.
pub proof fn lemma_label_single_setter(s: LabelSetter)
    ensures
        s.apply(Label::spec_empty()).doc_model() == seq![(s.key(), s.value())],
{
    assert(s.apply(Label::spec_empty()).doc_model() =~= seq![(s.key(), s.value())]);
}

/// A setter touches only the field it targets: every other field is carried
/// over, and what it writes into its own field does not depend on the
/// receiver.
pub proof fn lemma_label_setter_touches_only_its_field(s: LabelSetter, l1: Label, l2: Label)
    ensures
        s.field_index() == 0 ==> s.apply(l1).show == s.apply(l2).show,
        s.field_index() != 0 ==> s.apply(l1).show == l1.show,
        s.field_index() == 1 ==> s.apply(l1).position == s.apply(l2).position,
        s.field_index() != 1 ==> s.apply(l1).position == l1.position,
        s.field_index() == 2 ==> s.apply(l1).distance == s.apply(l2).distance,
        s.field_index() != 2 ==> s.apply(l1).distance == l1.distance,
        s.field_index() == 3 ==> s.apply(l1).rotate == s.apply(l2).rotate,
        s.field_index() != 3 ==> s.apply(l1).rotate == l1.rotate,
        s.field_index() == 4 ==> s.apply(l1).offset == s.apply(l2).offset,
        s.field_index() != 4 ==> s.apply(l1).offset == l1.offset,
        s.field_index() == 5 ==> s.apply(l1).formatter == s.apply(l2).formatter,
        s.field_index() != 5 ==> s.apply(l1).formatter == l1.formatter,
        s.field_index() == 6 ==> s.apply(l1).color == s.apply(l2).color,
        s.field_index() != 6 ==> s.apply(l1).color == l1.color,
        s.field_index() == 7 ==> s.apply(l1).font_size == s.apply(l2).font_size,
        s.field_index() != 7 ==> s.apply(l1).font_size == l1.font_size,
        s.field_index() == 8 ==> s.apply(l1).padding == s.apply(l2).padding,
        s.field_index() != 8 ==> s.apply(l1).padding == l1.padding,
        s.field_index() == 9 ==> s.apply(l1).align == s.apply(l2).align,
        s.field_index() != 9 ==> s.apply(l1).align == l1.align,
        s.field_index() == 10 ==> s.apply(l1).vertical_align == s.apply(l2).vertical_align,
        s.field_index() != 10 ==> s.apply(l1).vertical_align == l1.vertical_align,
        s.field_index() == 11 ==> s.apply(l1).silent == s.apply(l2).silent,
        s.field_index() != 11 ==> s.apply(l1).silent == l1.silent,
{
}

/// Label setters that target different fields commute: the resulting
/// descriptor, and with it the serialized document, does not depend on the
/// order in which they are applied.
pub proof fn lemma_label_setters_commute(l: Label, a: LabelSetter, b: LabelSetter)
    requires
        a.field_index() != b.field_index(),
    ensures
        b.apply(a.apply(l)) == a.apply(b.apply(l)),
        b.apply(a.apply(l)).doc_model() == a.apply(b.apply(l)).doc_model(),
{
    lemma_label_setter_touches_only_its_field(a, l, b.apply(l));
    lemma_label_setter_touches_only_its_field(a, b.apply(l), l);
    lemma_label_setter_touches_only_its_field(b, l, a.apply(l));
    lemma_label_setter_touches_only_its_field(b, a.apply(l), l);
    assert(b.apply(a.apply(l)) == a.apply(b.apply(l)));
}

/// The connector line from a slice or point to its external label. Every
/// field is optional, as in `Label`.
#[derive(Clone, Debug, PartialEq)]
pub struct LabelLine {
    pub show: Option<bool>,
    pub show_above: Option<bool>,
    pub length2: Option<Number>,
    pub smooth: Option<bool>,
    pub min_turn_angle: Option<Number>,
    pub line_style: Option<LineStyle>,
}

impl LabelLine {
    /// The descriptor with every field absent.
    pub open spec fn spec_empty() -> LabelLine {
        LabelLine {
            show: None,
            show_above: None,
            length2: None,
            smooth: None,
            min_turn_angle: None,
            line_style: None,
        }
    }

    pub open spec fn with_show(self, show: bool) -> LabelLine {
        LabelLine { show: Some(show), ..self }
    }

    pub open spec fn with_show_above(self, show_above: bool) -> LabelLine {
        LabelLine { show_above: Some(show_above), ..self }
    }

    pub open spec fn with_length2(self, length2: Number) -> LabelLine {
        LabelLine { length2: Some(length2), ..self }
    }

    pub open spec fn with_smooth(self, smooth: bool) -> LabelLine {
        LabelLine { smooth: Some(smooth), ..self }
    }

    pub open spec fn with_min_turn_angle(self, min_turn_angle: Number) -> LabelLine {
        LabelLine { min_turn_angle: Some(min_turn_angle), ..self }
    }

    pub open spec fn with_line_style(self, line_style: LineStyle) -> LabelLine {
        LabelLine { line_style: Some(line_style), ..self }
    }

    /// The document a connector-line descriptor serializes to.
    pub open spec fn doc_model(self) -> Seq<(Seq<char>, ValueModel)> {
        Seq::<(Seq<char>, ValueModel)>::empty() + opt_entry("show"@, bool_model(self.show))
            + opt_entry("showAbove"@, bool_model(self.show_above)) + opt_entry(
            "length2"@,
            num_model(self.length2),
        ) + opt_entry("smooth"@, bool_model(self.smooth)) + opt_entry(
            "minTurnAngle"@,
            num_model(self.min_turn_angle),
        ) + opt_entry("lineStyle"@, line_style_model(self.line_style))
    }

    /// A connector-line descriptor with every field absent.
    pub fn new() -> (r: LabelLine)
        ensures
            r == LabelLine::spec_empty(),
    {
        LabelLine {
            show: None,
            show_above: None,
            length2: None,
            smooth: None,
            min_turn_angle: None,
            line_style: None,
        }
    }

    pub fn show(self, show: bool) -> (r: LabelLine)
        ensures
            r == self.with_show(show),
    {
        LabelLine { show: Some(show), ..self }
    }

    pub fn show_above(self, show_above: bool) -> (r: LabelLine)
        ensures
            r == self.with_show_above(show_above),
    {
        LabelLine { show_above: Some(show_above), ..self }
    }

    pub fn length2(self, length2: Number) -> (r: LabelLine)
        ensures
            r == self.with_length2(length2),
    {
        LabelLine { length2: Some(length2), ..self }
    }

    pub fn smooth(self, smooth: bool) -> (r: LabelLine)
        ensures
            r == self.with_smooth(smooth),
    {
        LabelLine { smooth: Some(smooth), ..self }
    }

    pub fn min_turn_angle(self, min_turn_angle: Number) -> (r: LabelLine)
        ensures
            r == self.with_min_turn_angle(min_turn_angle),
    {
        LabelLine { min_turn_angle: Some(min_turn_angle), ..self }
    }

    pub fn line_style(self, line_style: LineStyle) -> (r: LabelLine)
        ensures
            r == self.with_line_style(line_style),
    {
        LabelLine { line_style: Some(line_style), ..self }
    }

    /// Serializes the connector-line descriptor: exactly the present fields,
    /// in declaration order, under their external-schema keys.
    pub fn serialize(self) -> (r: Document)
        ensures
            r@ == self.doc_model(),
    {
        let LabelLine { show, show_above, length2, smooth, min_turn_angle, line_style } = self;
        let mut d = Document::new();
        d.push_bool("show", show);
        d.push_bool("showAbove", show_above);
        d.push_num("length2", length2);
        d.push_bool("smooth", smooth);
        d.push_num("minTurnAngle", min_turn_angle);
        d.push_opt("lineStyle", LineStyle::opt_value(line_style));
        d
    }
}

/// One setter application on a `LabelLine`: which field it targets and the
/// value it records.
pub enum LabelLineSetter {
    Show(bool),
    ShowAbove(bool),
    Length2(Number),
    Smooth(bool),
    MinTurnAngle(Number),
    LineStyle(LineStyle),
}

impl LabelLineSetter {
    /// The targeted field, as its position in declaration order.
    pub open spec fn field_index(self) -> int {
        match self {
            LabelLineSetter::Show(_) => 0,
            LabelLineSetter::ShowAbove(_) => 1,
            LabelLineSetter::Length2(_) => 2,
            LabelLineSetter::Smooth(_) => 3,
            LabelLineSetter::MinTurnAngle(_) => 4,
            LabelLineSetter::LineStyle(_) => 5,
        }
    }

    /// The descriptor the setter produces from `l`.
    pub open spec fn apply(self, l: LabelLine) -> LabelLine {
        match self {
            LabelLineSetter::Show(v) => l.with_show(v),
            LabelLineSetter::ShowAbove(v) => l.with_show_above(v),
            LabelLineSetter::Length2(v) => l.with_length2(v),
            LabelLineSetter::Smooth(v) => l.with_smooth(v),
            LabelLineSetter::MinTurnAngle(v) => l.with_min_turn_angle(v),
            LabelLineSetter::LineStyle(v) => l.with_line_style(v),
        }
    }

    /// The external-schema key of the targeted field.
    pub open spec fn key(self) -> Seq<char> {
        match self {
            LabelLineSetter::Show(_) => "show"@,
            LabelLineSetter::ShowAbove(_) => "showAbove"@,
            LabelLineSetter::Length2(_) => "length2"@,
            LabelLineSetter::Smooth(_) => "smooth"@,
            LabelLineSetter::MinTurnAngle(_) => "minTurnAngle"@,
            LabelLineSetter::LineStyle(_) => "lineStyle"@,
        }
    }

    /// The transcoded document value of the recorded argument.
    pub open spec fn value(self) -> ValueModel {
        match self {
            LabelLineSetter::Show(v) => ValueModel::Bool(v),
            LabelLineSetter::ShowAbove(v) => ValueModel::Bool(v),
            LabelLineSetter::Length2(v) => ValueModel::Num(v.bits),
            LabelLineSetter::Smooth(v) => ValueModel::Bool(v),
            LabelLineSetter::MinTurnAngle(v) => ValueModel::Num(v.bits),
            LabelLineSetter::LineStyle(v) => v.value@,
        }
    }
}

/// A connector-line descriptor with no field set serializes to the empty
/// document: no keys at all.
pub proof fn lemma_label_line_default_serializes_empty()
    ensures
        LabelLine::spec_empty().doc_model() == Seq::<(Seq<char>, ValueModel)>::empty(),
{
    assert(LabelLine::spec_empty().doc_model() =~= Seq::<(Seq<char>, ValueModel)>::empty());
}

/// Exactly one setter applied to the default connector-line descriptor
/// yields a document with exactly one entry: the targeted field's
/// external-schema key and the transcoded value; every other field stays
/// absent and unrepresented.
pub proof fn lemma_label_line_single_setter(s: LabelLineSetter)
    ensures
        s.apply(LabelLine::spec_empty()).doc_model() == seq![(s.key(), s.value())],
{
    assert(s.apply(LabelLine::spec_empty()).doc_model() =~= seq![(s.key(), s.value())]);
}

/// Connector-line setters that target different fields commute: the
/// resulting descriptor, and with it the serialized document, does not
/// depend on the order in which they are applied.
pub proof fn lemma_label_line_setters_commute(l: LabelLine, a: LabelLineSetter, b: LabelLineSetter)
    requires
        a.field_index() != b.field_index(),
    ensures
        b.apply(a.apply(l)) == a.apply(b.apply(l)),
        b.apply(a.apply(l)).doc_model() == a.apply(b.apply(l)).doc_model(),
{
}

/// Post-layout adjustment hints for labels. Every field is optional, as in
/// `Label`.
#[derive(Clone, Debug, PartialEq)]
pub struct LabelLayout {
    pub hide_overlap: Option<bool>,
    pub overlap: Option<String>,
    pub rotate: Option<Number>,
}

impl LabelLayout {
    /// The descriptor with every field absent.
    pub open spec fn spec_empty() -> LabelLayout {
        LabelLayout { hide_overlap: None, overlap: None, rotate: None }
    }

    pub open spec fn with_hide_overlap(self, hide_overlap: bool) -> LabelLayout {
        LabelLayout { hide_overlap: Some(hide_overlap), ..self }
    }

    pub open spec fn with_overlap(self, overlap: String) -> LabelLayout {
        LabelLayout { overlap: Some(overlap), ..self }
    }

    pub open spec fn with_rotate(self, rotate: Number) -> LabelLayout {
        LabelLayout { rotate: Some(rotate), ..self }
    }

    /// The document a layout-hint descriptor serializes to.
    pub open spec fn doc_model(self) -> Seq<(Seq<char>, ValueModel)> {
        Seq::<(Seq<char>, ValueModel)>::empty() + opt_entry(
            "hideOverlap"@,
            bool_model(self.hide_overlap),
        ) + opt_entry("overlap"@, text_model(self.overlap)) + opt_entry(
            "rotate"@,
            num_model(self.rotate),
        )
    }

    /// A layout-hint descriptor with every field absent.
    pub fn new() -> (r: LabelLayout)
        ensures
            r == LabelLayout::spec_empty(),
    {
        LabelLayout { hide_overlap: None, overlap: None, rotate: None }
    }

    pub fn hide_overlap(self, hide_overlap: bool) -> (r: LabelLayout)
        ensures
            r == self.with_hide_overlap(hide_overlap),
    {
        LabelLayout { hide_overlap: Some(hide_overlap), ..self }
    }

    pub fn overlap(self, overlap: String) -> (r: LabelLayout)
        ensures
            r == self.with_overlap(overlap),
    {
        LabelLayout { overlap: Some(overlap), ..self }
    }

    pub fn rotate(self, rotate: Number) -> (r: LabelLayout)
        ensures
            r == self.with_rotate(rotate),
    {
        LabelLayout { rotate: Some(rotate), ..self }
    }

    /// Serializes the layout-hint descriptor: exactly the present fields, in
    /// declaration order, under their external-schema keys.
    pub fn serialize(self) -> (r: Document)
        ensures
            r@ == self.doc_model(),
    {
        let LabelLayout { hide_overlap, overlap, rotate } = self;
        let mut d = Document::new();
        d.push_bool("hideOverlap", hide_overlap);
        d.push_text("overlap", overlap);
        d.push_num("rotate", rotate);
        d
    }
}

/// One setter application on a `LabelLayout`: which field it targets and the
/// value it records.
pub enum LabelLayoutSetter {
    HideOverlap(bool),
    Overlap(String),
    Rotate(Number),
}

impl LabelLayoutSetter {
    /// The targeted field, as its position in declaration order.
    pub open spec fn field_index(self) -> int {
        match self {
            LabelLayoutSetter::HideOverlap(_) => 0,
            LabelLayoutSetter::Overlap(_) => 1,
            LabelLayoutSetter::Rotate(_) => 2,
        }
    }

    /// The descriptor the setter produces from `l`.
    pub open spec fn apply(self, l: LabelLayout) -> LabelLayout {
        match self {
            LabelLayoutSetter::HideOverlap(v) => l.with_hide_overlap(v),
            LabelLayoutSetter::Overlap(v) => l.with_overlap(v),
            LabelLayoutSetter::Rotate(v) => l.with_rotate(v),
        }
    }

    /// The external-schema key of the targeted field.
    pub open spec fn key(self) -> Seq<char> {
        match self {
            LabelLayoutSetter::HideOverlap(_) => "hideOverlap"@,
            LabelLayoutSetter::Overlap(_) => "overlap"@,
            LabelLayoutSetter::Rotate(_) => "rotate"@,
        }
    }

    /// The transcoded document value of the recorded argument.
    pub open spec fn value(self) -> ValueModel {
        match self {
            LabelLayoutSetter::HideOverlap(v) => ValueModel::Bool(v),
            LabelLayoutSetter::Overlap(v) => ValueModel::Text(v@),
            LabelLayoutSetter::Rotate(v) => ValueModel::Num(v.bits),
        }
    }
}

/// A layout-hint descriptor with no field set serializes to the empty
/// document: no keys at all.
pub proof fn lemma_label_layout_default_serializes_empty()
    ensures
        LabelLayout::spec_empty().doc_model() == Seq::<(Seq<char>, ValueModel)>::empty(),
{
    assert(LabelLayout::spec_empty().doc_model() =~= Seq::<(Seq<char>, ValueModel)>::empty());
}

/// Exactly one setter applied to the default layout-hint descriptor yields a
/// document with exactly one entry: the targeted field's external-schema key
/// and the transcoded value; every other field stays absent and
/// unrepresented.
pub proof fn lemma_label_layout_single_setter(s: LabelLayoutSetter)
    ensures
        s.apply(LabelLayout::spec_empty()).doc_model() == seq![(s.key(), s.value())],
{
    assert(s.apply(LabelLayout::spec_empty()).doc_model() =~= seq![(s.key(), s.value())]);
}

/// Layout-hint setters that target different fields commute: the resulting
/// descriptor, and with it the serialized document, does not depend on the
/// order in which they are applied.
pub proof fn lemma_label_layout_setters_commute(
    l: LabelLayout,
    a: LabelLayoutSetter,
    b: LabelLayoutSetter,
)
    requires
        a.field_index() != b.field_index(),
    ensures
        b.apply(a.apply(l)) == a.apply(b.apply(l)),
        b.apply(a.apply(l)).doc_model() == a.apply(b.apply(l)).doc_model(),
{
}

} // verus!
