use niri_ui::message::{SpanStyle, KEY_METADATA};
use niri_ui::text_renderer::{highlight_range, plan_metrics_update, MetricsUpdate};

#[test]
fn first_use_initializes() {
    assert_eq!(
        plan_metrics_update(None, false),
        MetricsUpdate::Initialize { create_buffer: true }
    );
    assert_eq!(
        plan_metrics_update(None, true),
        MetricsUpdate::Initialize { create_buffer: false }
    );
}

#[test]
fn changed_scale_rescales() {
    assert_eq!(plan_metrics_update(Some(false), true), MetricsUpdate::Rescale);
}

#[test]
fn same_scale_keeps() {
    assert_eq!(plan_metrics_update(Some(true), true), MetricsUpdate::Keep);
    assert_eq!(plan_metrics_update(Some(true), false), MetricsUpdate::Keep);
}

#[test]
fn key_style_metadata() {
    assert_eq!(SpanStyle::Key.metadata(), KEY_METADATA);
    assert_eq!(SpanStyle::Normal.metadata(), 0);
    assert_eq!(KEY_METADATA, 1);
}

#[test]
fn highlight_spans_first_to_last_key_glyph() {
    assert_eq!(highlight_range(&[0, 1, 1, 0, 1, 0]), Some((1, 4)));
    assert_eq!(highlight_range(&[1]), Some((0, 0)));
    assert_eq!(highlight_range(&[0, 0, 1]), Some((2, 2)));
}

#[test]
fn no_key_glyph_no_highlight() {
    assert_eq!(highlight_range(&[]), None);
    assert_eq!(highlight_range(&[0, 2, 0]), None);
}
