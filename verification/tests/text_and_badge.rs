use space_status::badge::{
    badge_color, badge_message, render_badge, summarize, BadgeColor, BadgeSummary,
};
use space_status::document::{State, StatusDocument};
use space_status::makerspace::base_status;
use space_status::status::SpaceStatus;
use space_status::text::{opt_text_copy, opt_text_eq, sanitize_badge_text, texts_copy, texts_eq};

fn named(space: &str, state: Option<State>) -> StatusDocument {
    let mut doc = base_status();
    doc.space = space.to_string();
    doc.state = state;
    doc
}

#[test]
fn sanitize_doubles_underscore_and_hyphen() {
    assert_eq!(sanitize_badge_text("maker_space-ncl"), "maker__space--ncl");
}

#[test]
fn sanitize_leaves_other_text_alone() {
    assert_eq!(sanitize_badge_text(""), "");
    assert_eq!(sanitize_badge_text("Maker Space"), "Maker Space");
    assert_eq!(sanitize_badge_text("a.b/c d"), "a.b/c d");
}

#[test]
fn sanitize_handles_runs_and_non_ascii() {
    assert_eq!(sanitize_badge_text("__"), "____");
    assert_eq!(sanitize_badge_text("-_-"), "--__--");
    assert_eq!(sanitize_badge_text("caf\u{e9}-bar"), "caf\u{e9}--bar");
}

#[test]
fn optional_text_helpers() {
    let a = Some("x".to_string());
    let b = Some("y".to_string());
    let none: Option<String> = None;
    assert_eq!(opt_text_copy(&a), a);
    assert_eq!(opt_text_copy(&none), None);
    assert!(opt_text_eq(&a, &a.clone()));
    assert!(!opt_text_eq(&a, &b));
    assert!(!opt_text_eq(&a, &none));
    assert!(!opt_text_eq(&none, &a));
    assert!(opt_text_eq(&none, &none));
}

#[test]
fn text_list_helpers() {
    let a = vec!["one".to_string(), "two".to_string()];
    let b = vec!["one".to_string(), "three".to_string()];
    let c = vec!["one".to_string()];
    assert_eq!(texts_copy(&a), a);
    assert!(texts_eq(&a, &a.clone()));
    assert!(!texts_eq(&a, &b));
    assert!(!texts_eq(&a, &c));
    assert!(texts_eq(&Vec::new(), &Vec::new()));
}

#[test]
fn badge_message_for_each_state() {
    let closed = State { open: Some(false), message: None };
    let closed_with_message = State { open: Some(false), message: Some("back soon".to_string()) };
    let open = State { open: Some(true), message: None };
    let open_with_message = State { open: Some(true), message: Some("members".to_string()) };
    let unknown = State { open: None, message: None };
    assert_eq!(badge_message(&closed), "Closed");
    assert_eq!(badge_message(&closed_with_message), "Closed");
    assert_eq!(badge_message(&open), "Open");
    assert_eq!(badge_message(&open_with_message), "Open (members)");
    assert_eq!(badge_message(&unknown), "Closed");
}

#[test]
fn badge_color_green_when_open_red_when_closed() {
    assert_eq!(badge_color(&State { open: Some(true), message: None }), BadgeColor::Green);
    assert_eq!(badge_color(&State { open: Some(false), message: None }), BadgeColor::Red);
    assert_eq!(badge_color(&State { open: None, message: None }), BadgeColor::Red);
}

#[test]
fn summary_with_label_escapes_space_name() {
    let doc = named("maker_space-ncl", Some(State { open: Some(true), message: None }));
    let badge = summarize(&doc, true).unwrap();
    assert_eq!(
        badge,
        BadgeSummary {
            label: Some("maker__space--ncl".to_string()),
            message: "Open".to_string(),
            color: BadgeColor::Green,
        }
    );
}

#[test]
fn summary_without_label() {
    let doc = named("maker_space-ncl", Some(State { open: Some(false), message: None }));
    let badge = summarize(&doc, false).unwrap();
    assert_eq!(
        badge,
        BadgeSummary { label: None, message: "Closed".to_string(), color: BadgeColor::Red }
    );
}

#[test]
fn no_summary_without_open_flag() {
    assert_eq!(summarize(&named("x", None), true), None);
    assert_eq!(summarize(&named("x", Some(State { open: None, message: None })), false), None);
}

#[test]
fn rendered_badge_is_an_svg_with_the_texts() {
    let badge = BadgeSummary {
        label: Some("Maker Space".to_string()),
        message: "Open (members)".to_string(),
        color: BadgeColor::Green,
    };
    let svg = render_badge(&badge);
    assert!(svg.starts_with("<svg"));
    assert!(svg.contains("Maker Space"));
    assert!(svg.contains("Open (members)"));
    assert_ne!(svg, "Open (members)");
}

#[test]
fn rendered_badge_depends_on_color_and_label() {
    let green = BadgeSummary { label: None, message: "Open".to_string(), color: BadgeColor::Green };
    let red = BadgeSummary { label: None, message: "Open".to_string(), color: BadgeColor::Red };
    let labelled = BadgeSummary {
        label: Some("Space".to_string()),
        message: "Open".to_string(),
        color: BadgeColor::Green,
    };
    assert_ne!(render_badge(&green), render_badge(&red));
    assert_ne!(render_badge(&green), render_badge(&labelled));
    assert_eq!(render_badge(&green), render_badge(&green.clone()));
}

#[test]
fn shield_endpoints_draw_the_rendered_state() {
    let status = SpaceStatus::new(base_status());
    let simple = status.http_get_shield_simple().unwrap();
    let full = status.http_get_shield_full().unwrap();
    let expected_simple = render_badge(&BadgeSummary {
        label: None,
        message: "Closed".to_string(),
        color: BadgeColor::Red,
    });
    let expected_full = render_badge(&BadgeSummary {
        label: Some("Maker Space".to_string()),
        message: "Closed".to_string(),
        color: BadgeColor::Red,
    });
    assert_eq!(simple, expected_simple);
    assert_eq!(full, expected_full);
    assert_eq!(status.shield_status_common(true), Some(expected_full));
    assert!(simple.contains("Closed"));
}

#[test]
fn shield_endpoints_give_nothing_without_state() {
    let status = SpaceStatus::new(named("x", None));
    assert_eq!(status.http_get_shield_simple(), None);
    assert_eq!(status.http_get_shield_full(), None);
}

#[test]
fn http_get_serves_the_rendered_document() {
    let status = SpaceStatus::new(base_status());
    assert_eq!(status.http_get(), base_status());
    assert_eq!(status.http_get(), status.get());
}
