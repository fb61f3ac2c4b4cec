use chart_options::Align;
use chart_options::BorderType;
use chart_options::Color;
use chart_options::Document;
use chart_options::ItemStyle;
use chart_options::Label;
use chart_options::LabelLayout;
use chart_options::LabelLine;
use chart_options::LineStyle;
use chart_options::Number;
use chart_options::Position;
use chart_options::TooltipTrigger;
use chart_options::Value;
use chart_options::VerticalAlign;

fn num(x: f64) -> Number {
    Number::from_bits(x.to_bits())
}

fn entry(key: &str, v: Value) -> (String, Value) {
    (key.to_string(), v)
}

#[test]
fn label_default_serializes_empty() {
    let d = Label::new().serialize();
    assert_eq!(d, Document { entries: vec![] });
}

#[test]
fn label_line_default_serializes_empty() {
    let d = LabelLine::new().serialize();
    assert_eq!(d, Document { entries: vec![] });
}

#[test]
fn label_layout_default_serializes_empty() {
    let d = LabelLayout::new().serialize();
    assert_eq!(d, Document { entries: vec![] });
}

#[test]
fn item_style_default_serializes_empty() {
    let d = ItemStyle::new().serialize();
    assert_eq!(d, Document { entries: vec![] });
}

#[test]
fn label_single_setter_show() {
    let d = Label::new().show(true).serialize();
    assert_eq!(d, Document { entries: vec![entry("show", Value::Bool(true))] });
}

#[test]
fn label_single_setter_position() {
    let d = Label::new().position(Position::InsideTopLeft).serialize();
    assert_eq!(
        d,
        Document { entries: vec![entry("position", Value::Text("insideTopLeft".to_string()))] }
    );
}

#[test]
fn label_single_setter_rotate_free_form() {
    let d = Label::new().rotate("auto".to_string()).serialize();
    assert_eq!(d, Document { entries: vec![entry("rotate", Value::Text("auto".to_string()))] });
}

#[test]
fn label_single_setter_distance() {
    let d = Label::new().distance(num(12.5)).serialize();
    assert_eq!(d, Document { entries: vec![entry("distance", Value::Num(num(12.5)))] });
}

#[test]
fn label_single_setter_font_size_uses_camel_case_key() {
    let d = Label::new().font_size(num(14.0)).serialize();
    assert_eq!(d, Document { entries: vec![entry("fontSize", Value::Num(num(14.0)))] });
}

#[test]
fn label_single_setter_vertical_align_uses_camel_case_key() {
    let d = Label::new().vertical_align(VerticalAlign::Middle).serialize();
    assert_eq!(
        d,
        Document { entries: vec![entry("verticalAlign", Value::Text("middle".to_string()))] }
    );
}

#[test]
fn position_literals_exact() {
    assert_eq!(Position::Top.to_text(), "top");
    assert_eq!(Position::Left.to_text(), "left");
    assert_eq!(Position::Right.to_text(), "right");
    assert_eq!(Position::Bottom.to_text(), "bottom");
    assert_eq!(Position::Inside.to_text(), "inside");
    assert_eq!(Position::InsideLeft.to_text(), "insideLeft");
    assert_eq!(Position::InsideRight.to_text(), "insideRight");
    assert_eq!(Position::InsideTop.to_text(), "insideTop");
    assert_eq!(Position::InsideBottom.to_text(), "insideBottom");
    assert_eq!(Position::InsideTopLeft.to_text(), "insideTopLeft");
    assert_eq!(Position::InsideBottomLeft.to_text(), "insideBottomLeft");
    assert_eq!(Position::InsideTopRight.to_text(), "insideTopRight");
    assert_eq!(Position::InsideBottomRight.to_text(), "insideBottomRight");
    assert_eq!(Position::Start.to_text(), "start");
    assert_eq!(Position::Outside.to_text(), "outside");
    assert_eq!(Position::Middle.to_text(), "middle");
}

#[test]
fn align_literals_exact() {
    assert_eq!(Align::Left.to_text(), "left");
    assert_eq!(Align::Center.to_text(), "center");
    assert_eq!(Align::Right.to_text(), "right");
}

#[test]
fn vertical_align_literals_exact() {
    assert_eq!(VerticalAlign::Top.to_text(), "top");
    assert_eq!(VerticalAlign::Middle.to_text(), "middle");
    assert_eq!(VerticalAlign::Bottom.to_text(), "bottom");
}

#[test]
fn tooltip_trigger_literals_exact() {
    assert_eq!(TooltipTrigger::Item.to_text(), "item");
    assert_eq!(TooltipTrigger::Axis.to_text(), "axis");
    assert_eq!(TooltipTrigger::NoTrigger.to_text(), "none");
}

#[test]
fn tooltip_trigger_to_value() {
    assert_eq!(TooltipTrigger::Axis.to_value(), Value::Text("axis".to_string()));
}

#[test]
fn offset_pair_keeps_declared_order() {
    let d = Label::new().offset((num(3.0), num(-2.0))).serialize();
    assert_eq!(
        d,
        Document { entries: vec![entry("offset", Value::NumArr(vec![num(3.0), num(-2.0)]))] }
    );
}

#[test]
fn padding_quadruple_keeps_declared_order() {
    let d = Label::new().padding((num(1.0), num(2.0), num(3.0), num(4.0))).serialize();
    assert_eq!(
        d,
        Document {
            entries: vec![entry(
                "padding",
                Value::NumArr(vec![num(1.0), num(2.0), num(3.0), num(4.0)]),
            )]
        }
    );
}

#[test]
fn disjoint_setters_commute() {
    let one = Label::new().show(true).silent(false);
    let other = Label::new().silent(false).show(true);
    assert_eq!(one, other);
    assert_eq!(one.serialize(), other.serialize());
}

#[test]
fn disjoint_setters_commute_item_style() {
    let one = ItemStyle::new().opacity(num(0.5)).border_width(num(2.0));
    let other = ItemStyle::new().border_width(num(2.0)).opacity(num(0.5));
    assert_eq!(one, other);
    assert_eq!(one.serialize(), other.serialize());
}

#[test]
fn label_end_to_end_example() {
    let d = Label::new()
        .show(true)
        .position(Position::InsideTopLeft)
        .offset((num(0.0), num(5.0)))
        .serialize();
    assert_eq!(
        d,
        Document {
            entries: vec![
                entry("show", Value::Bool(true)),
                entry("position", Value::Text("insideTopLeft".to_string())),
                entry("offset", Value::NumArr(vec![num(0.0), num(5.0)])),
            ]
        }
    );
}

#[test]
fn item_style_opacity_example() {
    let d = ItemStyle::new().opacity(num(0.5)).serialize();
    assert_eq!(d, Document { entries: vec![entry("opacity", Value::Num(num(0.5)))] });
}

#[test]
fn color_leaf_embedded_unchanged() {
    let c = Color::new(Value::Text("#aabbcc".to_string()));
    let d = Label::new().color(c).serialize();
    assert_eq!(
        d,
        Document { entries: vec![entry("color", Value::Text("#aabbcc".to_string()))] }
    );
}

#[test]
fn border_type_leaf_embedded_unchanged() {
    let b = BorderType::new(Value::Text("dashed".to_string()));
    let d = ItemStyle::new().border_type(b).serialize();
    assert_eq!(
        d,
        Document { entries: vec![entry("borderType", Value::Text("dashed".to_string()))] }
    );
}

#[test]
fn label_line_camel_case_keys() {
    let d = LabelLine::new()
        .show(true)
        .show_above(false)
        .length2(num(10.0))
        .smooth(true)
        .min_turn_angle(num(45.0))
        .line_style(LineStyle::new(Value::Text("dotted".to_string())))
        .serialize();
    assert_eq!(
        d,
        Document {
            entries: vec![
                entry("show", Value::Bool(true)),
                entry("showAbove", Value::Bool(false)),
                entry("length2", Value::Num(num(10.0))),
                entry("smooth", Value::Bool(true)),
                entry("minTurnAngle", Value::Num(num(45.0))),
                entry("lineStyle", Value::Text("dotted".to_string())),
            ]
        }
    );
}

#[test]
fn label_layout_fields() {
    let d = LabelLayout::new()
        .hide_overlap(true)
        .overlap("shiftY".to_string())
        .rotate(num(90.0))
        .serialize();
    assert_eq!(
        d,
        Document {
            entries: vec![
                entry("hideOverlap", Value::Bool(true)),
                entry("overlap", Value::Text("shiftY".to_string())),
                entry("rotate", Value::Num(num(90.0))),
            ]
        }
    );
}

#[test]
fn label_full_emission_in_declaration_order() {
    let d = Label::new()
        .silent(true)
        .align(Align::Center)
        .show(false)
        .serialize();
    assert_eq!(
        d,
        Document {
            entries: vec![
                entry("show", Value::Bool(false)),
                entry("align", Value::Text("center".to_string())),
                entry("silent", Value::Bool(true)),
            ]
        }
    );
}

#[test]
fn number_carries_exact_bit_pattern() {
    let n = num(2.5);
    assert_eq!(f64::from_bits(n.bits), 2.5);
    let neg = num(-0.0);
    assert_eq!(neg.bits, (-0.0f64).to_bits());
}
