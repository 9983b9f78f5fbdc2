//! The badge: the rendered status reduced to an open/closed summary, and
//! its drawing as an SVG image.

use vstd::prelude::*;
use vstd::string::*;
use crate::document::{DocumentView, StateView, State, StatusDocument};
use crate::status::SpaceStatus;
use crate::text::{escaped, opt_text, sanitize_badge_text};

verus! {

/// The colour of the message side of a badge.
#[derive(Clone, Copy, Debug, PartialEq, Eq, Structural)]
pub enum BadgeColor {
    /// The space is open.
    Green,
    /// The space is closed.
    Red,
}

/// What a badge shows.
#[derive(Clone, Debug, PartialEq, Eq)]
pub struct BadgeSummary {
    pub label: Option<String>,
    pub message: String,
    pub color: BadgeColor,
}

pub ghost struct BadgeView {
    pub label: Option<Seq<char>>,
    pub message: Seq<char>,
    pub color: BadgeColor,
}

impl View for BadgeSummary {
    type V = BadgeView;

    open spec fn view(&self) -> BadgeView {
        BadgeView { label: opt_text(self.label), message: self.message@, color: self.color }
    }
}

/// The SVG text that `badge_maker` draws for a label, a message and a
/// colour (green if `green`, red otherwise), with its default style.
pub uninterp spec fn badge_svg(label: Option<Seq<char>>, message: Seq<char>, green: bool) -> Seq<
    char,
>;

/// Whether the document says if the space is open.
pub open spec fn open_known(d: DocumentView) -> bool {
    d.state is Some && d.state.unwrap().open is Some
}

/// The message of a badge: `Closed` for a closed space, `Open` for an open
/// one, followed by the state's message in brackets where it has one.
pub open spec fn badge_message_spec(state: StateView) -> Seq<char> {
    if state.open == Some(true) {
        match state.message {
            Some(m) => "Open ("@ + m + ")"@,
            None => "Open"@,
        }
    } else {
        "Closed"@
    }
}

/// The colour of a badge: green for an open space, red otherwise.
pub open spec fn badge_color_spec(state: StateView) -> BadgeColor {
    if state.open == Some(true) {
        BadgeColor::Green
    } else {
        BadgeColor::Red
    }
}

/// The badge of a document whose state says if the space is open. With a
/// label, the label is the name of the space, with `_` and `-` doubled.
pub open spec fn summary_spec(d: DocumentView, with_label: bool) -> BadgeView {
    BadgeView {
        label: if with_label {
            Some(escaped(d.space))
        } else {
            None
        },
        message: badge_message_spec(d.state.unwrap()),
        color: badge_color_spec(d.state.unwrap()),
    }
}

/// The image of a badge.
pub open spec fn drawing(b: BadgeView) -> Seq<char> {
    badge_svg(b.label, b.message, b.color == BadgeColor::Green)
}

/// Builds a badge with `badge_maker`'s `BadgeBuilder` (`label` where there
/// is one, `message`, `color` with the named colour green or red, `build`)
/// and renders it with `Badge::svg`. With a message and a named colour set,
/// and no style or colour left to be parsed, `build` has no way to fail, so
/// the result is promised; the image itself is only named.
#[verifier::external_body]
fn draw_badge(label: &Option<String>, message: &str, color: BadgeColor) -> (svg: Option<String>)
    ensures
        svg is Some,
        svg.unwrap()@ == badge_svg(opt_text(*label), message@, color == BadgeColor::Green),
{
    let named = match color {
        BadgeColor::Green => badge_maker::color::NamedColor::Green,
        BadgeColor::Red => badge_maker::color::NamedColor::Red,
    };
    let mut builder = badge_maker::BadgeBuilder::new();
    if let Some(text) = label {
        builder.label(text);
    }
    builder.message(message).color(named);
    match builder.build() {
        Ok(badge) => Some(badge.svg()),
        Err(_) => None,
    }
}

/// The message of the badge for a state.
pub fn badge_message(state: &State) -> (r: String)
    ensures
        r@ == badge_message_spec(state@),
{
    let open = match state.open {
        Some(b) => b,
        None => false,
    };
    if open {
        match &state.message {
            Some(m) => {
                let mut r = "Open (".to_owned();
                r.append(m.as_str());
                r.append(")");
                r
            },
            None => "Open".to_owned(),
        }
    } else {
        "Closed".to_owned()
    }
}

/// The colour of the badge for a state.
pub fn badge_color(state: &State) -> (r: BadgeColor)
    ensures
        r == badge_color_spec(state@),
{
    match state.open {
        Some(true) => BadgeColor::Green,
        _ => BadgeColor::Red,
    }
}

/// Reduces a document to its badge. There is none where the document does
/// not say if the space is open.
pub fn summarize(doc: &StatusDocument, with_label: bool) -> (r: Option<BadgeSummary>)
    ensures
        r is Some <==> open_known(doc@),
        r is Some ==> r.unwrap()@ == summary_spec(doc@, with_label),
{
    match &doc.state {
        Some(state) => {
            if state.open.is_none() {
                return None;
            }
            let label = if with_label {
                Some(sanitize_badge_text(doc.space.as_str()))
            } else {
                None
            };
            Some(BadgeSummary { label, message: badge_message(state), color: badge_color(state) })
        },
        None => None,
    }
}

/// Draws a badge as an SVG image.
pub fn render_badge(badge: &BadgeSummary) -> (svg: String)
    ensures
        svg@ == drawing(badge@),
{
    draw_badge(&badge.label, badge.message.as_str(), badge.color).unwrap()
}

impl SpaceStatus {
    /// What `GET /` serves: a deep copy of the document last rendered.
    pub fn http_get(&self) -> (r: StatusDocument)
        ensures
            r@ == self.rendered_view(),
    {
        self.get()
    }

    /// The badge of the document last rendered, drawn; `None` where that
    /// document does not say if the space is open.
    pub fn shield_status_common(&self, with_label: bool) -> (r: Option<String>)
        ensures
            r is Some <==> open_known(self.rendered_view()),
            r is Some ==> r.unwrap()@ == drawing(summary_spec(self.rendered_view(), with_label)),
    {
        let doc = self.get();
        match summarize(&doc, with_label) {
            Some(badge) => Some(render_badge(&badge)),
            None => None,
        }
    }

    /// What `GET /badge/simple` serves: the badge without a label.
    pub fn http_get_shield_simple(&self) -> (r: Option<String>)
        ensures
            r is Some <==> open_known(self.rendered_view()),
            r is Some ==> r.unwrap()@ == drawing(summary_spec(self.rendered_view(), false)),
    {
        self.shield_status_common(false)
    }

    /// What `GET /badge` serves: the badge with the space's name as label.
    pub fn http_get_shield_full(&self) -> (r: Option<String>)
        ensures
            r is Some <==> open_known(self.rendered_view()),
            r is Some ==> r.unwrap()@ == drawing(summary_spec(self.rendered_view(), true)),
    {
        self.shield_status_common(true)
    }
}

} // verus!
