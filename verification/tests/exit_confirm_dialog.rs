use std::cell::Cell;

use niri_ui::animation::{AnimFrom, Endpoint};
use niri_ui::exit_confirm_dialog::{DialogFrame, ExitConfirmDialog, BORDER, FALLBACK_SCALE_KEY, PADDING};
use niri_ui::message::SpanStyle;

#[derive(Debug, Clone, Copy, PartialEq)]
struct Anim {
    from: f64,
    to: f64,
}

fn value_of(e: Endpoint) -> f64 {
    match e {
        Endpoint::Zero => 0.,
        Endpoint::One => 1.,
    }
}

/// A stand-in animation that is halfway when replaced.
fn make(from: AnimFrom<Anim>, to: Endpoint) -> Anim {
    let from = match from {
        AnimFrom::Rest(e) => value_of(e),
        AnimFrom::Current(a) => (a.from + a.to) / 2.,
    };
    Anim { from, to: value_of(to) }
}

type Dialog = ExitConfirmDialog<Anim, &'static str>;

fn dialog() -> Dialog {
    Dialog::new(|_, _| Some("fallback"))
}

#[test]
fn fallback_key_is_scale_one() {
    assert_eq!(FALLBACK_SCALE_KEY, 1.0f64.to_bits());
    assert_eq!((PADDING, BORDER), (16, 8));
}

#[test]
fn new_draws_the_dialog_text() {
    let mut seen = Vec::new();
    let d: Dialog = ExitConfirmDialog::new(|_, t| {
        seen = t.iter().map(|s| (s.text.clone(), s.style)).collect();
        Some("x")
    });
    assert!(d.can_show());
    assert!(!d.is_open());
    assert!(!d.are_animations_ongoing());
    assert_eq!(
        seen,
        vec![
            (
                "Are you sure you want to exit niri?\n\n    Press ".to_owned(),
                SpanStyle::Normal
            ),
            (" Enter ".to_owned(), SpanStyle::Key),
            (" to confirm.".to_owned(), SpanStyle::Normal),
        ]
    );
}

#[test]
fn failed_fallback_means_no_dialog() {
    let mut d: Dialog = ExitConfirmDialog::new(|_, _| None);
    assert!(!d.can_show());
    assert!(!d.show(make));
    assert!(!d.is_open());
    assert!(d.render(5, |_, _| Some("never")).is_none());
}

#[test]
fn show_opens_from_zero() {
    let mut d = dialog();
    assert!(d.show(make));
    assert!(d.is_open());
    assert!(d.are_animations_ongoing());
    assert_eq!(d.animation(), Some(&Anim { from: 0., to: 1. }));
}

#[test]
fn show_when_open_returns_true_and_changes_nothing() {
    let mut d = dialog();
    d.show(make);
    assert!(d.show(|_, _| Anim { from: 7., to: 7. }));
    assert_eq!(d.animation(), Some(&Anim { from: 0., to: 1. }));
    d.advance_animations(true, false);
    assert!(d.show(|_, _| Anim { from: 7., to: 7. }));
    assert!(d.animation().is_none());
    assert!(d.is_open());
}

#[test]
fn dismiss_when_closed_returns_false() {
    let mut d = dialog();
    assert!(!d.dismiss(make));
    assert!(!d.is_open());
}

#[test]
fn dismiss_from_visible_starts_at_one() {
    let mut d = dialog();
    d.show(make);
    d.advance_animations(true, false);
    assert!(!d.are_animations_ongoing());
    assert!(d.dismiss(make));
    assert!(!d.is_open());
    assert_eq!(d.animation(), Some(&Anim { from: 1., to: 0. }));
    assert!(!d.dismiss(make));
}

#[test]
fn turning_around_starts_from_the_current_value() {
    let mut d = dialog();
    d.show(make);
    d.dismiss(make);
    assert_eq!(d.animation(), Some(&Anim { from: 0.5, to: 0. }));
    d.show(make);
    assert_eq!(d.animation(), Some(&Anim { from: 0.25, to: 1. }));
}

#[test]
fn advance_finishes_opening_and_closing() {
    let mut d = dialog();
    d.show(make);
    d.advance_animations(false, true);
    assert!(d.are_animations_ongoing());
    d.advance_animations(true, false);
    assert!(d.is_open());
    assert!(!d.are_animations_ongoing());
    d.dismiss(make);
    d.advance_animations(true, false);
    assert!(d.are_animations_ongoing());
    d.advance_animations(false, true);
    assert!(!d.are_animations_ongoing());
    assert!(!d.is_open());
}

#[test]
fn render_of_hidden_dialog_draws_nothing() {
    let mut d = dialog();
    let mut called = false;
    assert!(d
        .render(3, |_, _| {
            called = true;
            Some("x")
        })
        .is_none());
    assert!(!called);
}

#[test]
fn render_caches_per_scale_and_falls_back() {
    let mut d = dialog();
    d.show(make);
    let calls = Cell::new(0);
    match d.render(2, |_, _| {
        calls.set(calls.get() + 1);
        Some("at 2")
    }) {
        Some(DialogFrame::Animating { anim, buffer }) => {
            assert_eq!(*anim, Anim { from: 0., to: 1. });
            assert_eq!(*buffer, "at 2");
        },
        _ => panic!("expected an animating frame"),
    }
    match d.render(3, |_, _| {
        calls.set(calls.get() + 1);
        None
    }) {
        Some(DialogFrame::Animating { buffer, .. }) => assert_eq!(*buffer, "fallback"),
        _ => panic!("expected an animating frame"),
    }
    // Both results are cached, the failed one too.
    d.render(2, |_, _| {
        calls.set(calls.get() + 1);
        None
    });
    d.render(3, |_, _| {
        calls.set(calls.get() + 1);
        Some("late")
    });
    assert_eq!(calls.get(), 2);
}

#[test]
fn render_at_scale_one_uses_the_fallback() {
    let mut d = dialog();
    d.show(make);
    d.advance_animations(true, false);
    let mut called = false;
    match d.render(FALLBACK_SCALE_KEY, |_, _| {
        called = true;
        Some("other")
    }) {
        Some(DialogFrame::Visible { buffer }) => assert_eq!(*buffer, "fallback"),
        _ => panic!("expected a visible frame"),
    }
    assert!(!called);
}

#[test]
fn can_show_never_changes() {
    let mut d = dialog();
    d.show(make);
    d.render(9, |_, _| None);
    d.dismiss(make);
    d.advance_animations(true, true);
    assert!(d.can_show());
}

#[test]
fn settled_dialog_ignores_steps() {
    let mut d = dialog();
    d.advance_animations(true, true);
    assert!(!d.is_open());
    assert!(!d.are_animations_ongoing());
    d.show(make);
    d.advance_animations(true, true);
    d.advance_animations(true, true);
    assert!(d.is_open());
    assert!(!d.are_animations_ongoing());
}

#[test]
fn renders_are_asked_for_their_scale() {
    let mut fallback_key = None;
    let mut d: Dialog = ExitConfirmDialog::new(|key, _| {
        fallback_key = Some(key);
        Some("fallback")
    });
    assert_eq!(fallback_key, Some(FALLBACK_SCALE_KEY));
    d.show(make);
    let mut asked = None;
    d.render(2.0f64.to_bits(), |key, _| {
        asked = Some(key);
        Some("at 2")
    });
    assert_eq!(asked, Some(2.0f64.to_bits()));
}
