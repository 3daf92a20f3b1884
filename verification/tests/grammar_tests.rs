use qliphoth_native::css::{
    chars_of, default_style_for_tag, parse_color, parse_dimension, parse_grid_line, parse_grid_placement,
    parse_length, parse_length_percentage_auto, parse_track_list, parse_track_sizing, style_update, AlignKind,
    ColorSpec, DirectionKind, DisplayKind, JustifyKind, LengthText, LengthUnit, Overflow, PlacementSpec,
    Position, Side, SizeSpec, StyleUpdate, TagLayout, TextRange, TrackSpec,
};
use qliphoth_native::widgets::{
    attribute_action, tag_to_widget, widget_style_action, AttributeAction, WidgetEvent, WidgetKind,
    WidgetRegistry, WidgetStyleAction,
};

fn len_of(s: &str) -> Option<LengthText> {
    let v = chars_of(s);
    parse_length(&v, 0, v.len())
}

fn text(s: &str, r: TextRange) -> String {
    s.chars().skip(r.start).take(r.end - r.start).collect()
}

fn lt(start: usize, end: usize, unit: LengthUnit) -> LengthText {
    LengthText { number: TextRange { start, end }, unit }
}

#[test]
fn lengths_by_unit() {
    assert_eq!(len_of("100px"), Some(lt(0, 3, LengthUnit::Px)));
    assert_eq!(len_of("1.5rem"), Some(lt(0, 3, LengthUnit::Rem)));
    assert_eq!(len_of("2em"), Some(lt(0, 1, LengthUnit::Em)));
    assert_eq!(len_of("42"), Some(lt(0, 2, LengthUnit::Bare)));
    assert_eq!(len_of("  7px \t"), Some(lt(2, 3, LengthUnit::Px)));
    assert_eq!(len_of("10pxpx"), Some(lt(0, 2, LengthUnit::Px)));
    assert_eq!(len_of("px"), None);
    assert_eq!(len_of("abc"), None);
    assert_eq!(len_of(""), None);
    assert_eq!(text("  7px \t", len_of("  7px \t").unwrap().number), "7");
}

#[test]
fn float_grammar_cases() {
    for ok in ["1", "-1", "+1.5", ".5", "5.", "1e3", "1E-3", "inf", "-Infinity", "NaN", "0.25e+2"] {
        assert!(len_of(ok).is_some(), "{} should be a number", ok);
        assert!(ok.parse::<f32>().is_ok());
    }
    for bad in [".", "e5", "1e", "1e+", "+", "--1", "1.2.3", "in", "infinit", "0x10", "1 2"] {
        assert!(len_of(bad).is_none(), "{} should not be a number", bad);
        assert!(bad.parse::<f32>().is_err());
    }
}

#[test]
fn dimensions_and_insets() {
    let d = |s: &str| {
        let v = chars_of(s);
        parse_dimension(&v, 0, v.len())
    };
    assert_eq!(d("auto"), SizeSpec::Auto);
    assert_eq!(d("50%"), SizeSpec::Percent(TextRange { start: 0, end: 2 }));
    assert_eq!(d("200px"), SizeSpec::Length(lt(0, 3, LengthUnit::Px)));
    assert_eq!(d("wide"), SizeSpec::Auto);
    // A percentage is read without trimming; a padded one is no length either.
    assert_eq!(d(" 50%"), SizeSpec::Auto);
    let i = |s: &str| {
        let v = chars_of(s);
        parse_length_percentage_auto(&v, 0, v.len())
    };
    assert_eq!(i(" 50%"), SizeSpec::Percent(TextRange { start: 1, end: 3 }));
    assert_eq!(i(" auto "), SizeSpec::Auto);
}

#[test]
fn grid_tracks() {
    let t = |s: &str| {
        let v = chars_of(s);
        parse_track_sizing(&v, 0, v.len())
    };
    assert_eq!(t("auto"), Some(TrackSpec::Auto));
    assert_eq!(t("2fr"), Some(TrackSpec::Flex(TextRange { start: 0, end: 1 })));
    assert_eq!(t("100px"), Some(TrackSpec::Length(lt(0, 3, LengthUnit::Px))));
    assert_eq!(t("minmax(1px,2px)"), None);
    let v = chars_of("100px 1fr  auto bogus 2fr");
    let tracks = parse_track_list(&v, 0, v.len());
    assert_eq!(
        tracks,
        vec![
            TrackSpec::Length(lt(0, 3, LengthUnit::Px)),
            TrackSpec::Flex(TextRange { start: 6, end: 7 }),
            TrackSpec::Auto,
            TrackSpec::Flex(TextRange { start: 22, end: 23 }),
        ]
    );
}

#[test]
fn grid_placements() {
    let p = |s: &str| {
        let v = chars_of(s);
        parse_grid_placement(&v, 0, v.len())
    };
    assert_eq!(p("auto"), PlacementSpec::Auto);
    assert_eq!(p("span 2"), PlacementSpec::Span(2));
    assert_eq!(p("spanspan 3"), PlacementSpec::Span(3));
    assert_eq!(p("-1"), PlacementSpec::Line(-1));
    assert_eq!(p("+4"), PlacementSpec::Line(4));
    assert_eq!(p("40000"), PlacementSpec::Auto);
    assert_eq!(p("span -2"), PlacementSpec::Auto);
    assert_eq!(p("span 70000"), PlacementSpec::Auto);
    let l = |s: &str| {
        let v = chars_of(s);
        parse_grid_line(&v, 0, v.len())
    };
    assert_eq!(l("1 / 3"), (PlacementSpec::Line(1), PlacementSpec::Line(3)));
    assert_eq!(l("span 2"), (PlacementSpec::Span(2), PlacementSpec::Auto));
    assert_eq!(l("1 / 2 / 3"), (PlacementSpec::Line(1), PlacementSpec::Line(2)));
    assert_eq!(l("/ 2"), (PlacementSpec::Auto, PlacementSpec::Line(2)));
}

#[test]
fn colors() {
    let c = |s: &str| {
        let v = chars_of(s);
        parse_color(&v, 0, v.len())
    };
    assert_eq!(c("#ff0000"), Some(ColorSpec::Rgb { r: 255, g: 0, b: 0 }));
    assert_eq!(c(" #4CAF50 "), Some(ColorSpec::Rgb { r: 0x4c, g: 0xaf, b: 0x50 }));
    assert_eq!(c("#+f0000"), Some(ColorSpec::Rgb { r: 15, g: 0, b: 0 }));
    assert_eq!(c("#ff00"), None);
    assert_eq!(c("#gg0000"), None);
    assert_eq!(c("green"), Some(ColorSpec::Green));
    assert_eq!(c("transparent"), Some(ColorSpec::Transparent));
    assert_eq!(c("purple"), None);
}

#[test]
fn style_updates() {
    assert_eq!(style_update("display", "grid"), StyleUpdate::Display(DisplayKind::Grid));
    assert_eq!(style_update("display", "block"), StyleUpdate::Display(DisplayKind::Flex));
    assert_eq!(style_update("flex-direction", "column"), StyleUpdate::FlexDirection(DirectionKind::Column));
    assert_eq!(style_update("justify-content", "end"), StyleUpdate::JustifyContent(JustifyKind::FlexEnd));
    assert_eq!(style_update("align-items", "bogus"), StyleUpdate::AlignItems(AlignKind::Stretch));
    assert_eq!(style_update("width", "300px"), StyleUpdate::Width(SizeSpec::Length(lt(0, 3, LengthUnit::Px))));
    assert_eq!(
        style_update("background-color", "#0000ff"),
        StyleUpdate::BackgroundColor(Some(ColorSpec::Rgb { r: 0, g: 0, b: 255 }))
    );
    assert_eq!(style_update("color", "nope"), StyleUpdate::TextColor(None));
    assert_eq!(style_update("padding", "10px"), StyleUpdate::Padding(lt(0, 2, LengthUnit::Px)));
    assert_eq!(style_update("margin", "lots"), StyleUpdate::Unchanged);
    assert_eq!(style_update("position", "absolute"), StyleUpdate::Position(Position::Absolute));
    assert_eq!(
        style_update("top", "50px"),
        StyleUpdate::Inset(Side::Top, SizeSpec::Length(lt(0, 2, LengthUnit::Px)))
    );
    assert_eq!(style_update("overflow", "auto"), StyleUpdate::Overflow(Overflow::Scroll));
    assert_eq!(style_update("z-index", "-3"), StyleUpdate::ZIndex(-3));
    assert_eq!(style_update("z-index", " 3"), StyleUpdate::ZIndex(0));
    assert_eq!(style_update("opacity", "0.5"), StyleUpdate::Opacity(Some(TextRange { start: 0, end: 3 })));
    assert_eq!(style_update("opacity", "half"), StyleUpdate::Opacity(None));
    assert_eq!(style_update("grid-column", "1 / 3"), StyleUpdate::GridColumn(PlacementSpec::Line(1), PlacementSpec::Line(3)));
    assert_eq!(style_update("grid-template-columns", "1fr"), StyleUpdate::GridTemplateColumns);
    assert_eq!(style_update("unknown", "1"), StyleUpdate::Unchanged);
}

#[test]
fn tag_layouts() {
    assert_eq!(default_style_for_tag("div"), TagLayout::Column);
    assert_eq!(default_style_for_tag("nav"), TagLayout::Column);
    assert_eq!(default_style_for_tag("span"), TagLayout::Row);
    assert_eq!(default_style_for_tag("button"), TagLayout::Button);
    assert_eq!(default_style_for_tag("p"), TagLayout::Plain);
}

#[test]
fn widget_choices() {
    assert_eq!(tag_to_widget("div"), WidgetKind::VerticalBox);
    assert_eq!(tag_to_widget("h3"), WidgetKind::Label);
    assert_eq!(tag_to_widget("button"), WidgetKind::Button);
    assert_eq!(tag_to_widget("input"), WidgetKind::Entry);
    assert_eq!(tag_to_widget("textarea"), WidgetKind::TextView);
    assert_eq!(tag_to_widget("img"), WidgetKind::Picture);
    assert_eq!(tag_to_widget("custom"), WidgetKind::VerticalBox);
    assert_eq!(attribute_action("label", "Go"), AttributeAction::SetLabel);
    assert_eq!(attribute_action("visible", "1"), AttributeAction::SetVisible(true));
    assert_eq!(attribute_action("enabled", "yes"), AttributeAction::SetSensitive(false));
    assert_eq!(attribute_action("value", "x"), AttributeAction::SetEntryText);
    assert_eq!(attribute_action("id", "x"), AttributeAction::Ignore);
    assert_eq!(widget_style_action("margin", "12"), WidgetStyleAction::Margin(12));
    assert_eq!(widget_style_action("width", "12px"), WidgetStyleAction::Ignore);
    assert_eq!(widget_style_action("height", "-5"), WidgetStyleAction::HeightRequest(-5));
    assert_eq!(widget_style_action("color", "5"), WidgetStyleAction::Ignore);
}

#[test]
fn widget_events_newest_first() {
    let mut r = WidgetRegistry::new();
    assert_eq!(r.allocate_handle(), 1);
    assert_eq!(r.allocate_handle(), 2);
    assert!(r.add_event_listener(1, 0, 7));
    assert!(!r.add_event_listener(1, 10, 8));
    r.remove_event_listener(8);
    assert_eq!(r.callbacks, vec![(7, (1, 0))]);
    r.events.push(WidgetEvent::Close);
    r.push_click(7);
    assert_eq!(r.poll_events(), 0);
    assert_eq!(r.poll_events(), 3);
    assert_eq!(r.poll_events(), -1);
    r.events.push(WidgetEvent::KeyUp { key: 65, modifiers: 0, callback_id: 9 });
    r.events.push(WidgetEvent::MouseMove { x: 1, y: 2 });
    assert_eq!(r.poll_events(), 6);
    assert_eq!(r.poll_events(), 5);
    assert_eq!(r.poll_events(), -1);
    assert!(r.events.is_empty());
}

#[test]
fn unknown_or_unmeasured_style_changes_nothing() {
    assert_eq!(style_update("cursor", "pointer"), StyleUpdate::Unchanged);
    assert_eq!(style_update("margin", "wide"), StyleUpdate::Unchanged);
    assert_eq!(style_update("padding", ""), StyleUpdate::Unchanged);
    assert_eq!(style_update("gap", "auto"), StyleUpdate::Unchanged);
}
