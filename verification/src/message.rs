use vstd::prelude::*;

verus! {

/// How a piece of text is drawn.
#[derive(Clone, Copy, Debug, PartialEq, Eq, Structural)]
pub enum SpanStyle {
    /// Regular sans-serif text.
    Normal,
    /// A key or command the user should type: bold monospace on a highlight.
    Key,
}

impl SpanStyle {
    /// The glyph metadata that marks text drawn in this style; glyphs that
    /// carry the `Key` value get a highlight behind them.
    pub open spec fn spec_metadata(self) -> usize {
        match self {
            SpanStyle::Normal => 0,
            SpanStyle::Key => KEY_METADATA,
        }
    }

    #[verifier::when_used_as_spec(spec_metadata)]
    pub fn metadata(self) -> (m: usize)
        ensures
            m == self.spec_metadata(),
    {
        match self {
            SpanStyle::Normal => 0,
            SpanStyle::Key => KEY_METADATA,
        }
    }
}

/// Glyph metadata carried by text in the `Key` style.
pub const KEY_METADATA: usize = 1;

/// A run of text in one style.
pub struct Span {
    pub text: String,
    pub style: SpanStyle,
}

/// The text and style of each span, in order.
pub open spec fn spans_view(spans: Seq<Span>) -> Seq<(Seq<char>, SpanStyle)> {
    spans.map_values(|s: Span| (s.text@, s.style))
}

/// What `{:?}` prints for the path `path` (quoted, with escapes).
pub uninterp spec fn path_debug_text(path: Seq<char>) -> Seq<char>;

/// Whether `a` and `b` are equal as paths (`Path`'s `==`, which compares
/// components, so that for instance a trailing separator does not count).
pub uninterp spec fn paths_equal(a: Seq<char>, b: Seq<char>) -> bool;

/// Formats `path` with `std::path::Path`'s `Debug`. The result is named
/// `path_debug_text`; nothing more is claimed of it.
#[verifier::external_body]
pub(crate) fn path_debug(path: &str) -> (r: String)
    ensures
        r@ == path_debug_text(path@),
{
    format!("{:?}", std::path::Path::new(path))
}

/// Compares two paths with `std::path::Path`'s `==`. The result is named
/// `paths_equal`; the only fact claimed is that equal strings are equal
/// paths (`==` on `Path` is reflexive).
#[verifier::external_body]
pub(crate) fn same_path(a: &str, b: &str) -> (r: bool)
    ensures
        r == paths_equal(a@, b@),
        a@ == b@ ==> r,
{
    std::path::Path::new(a) == std::path::Path::new(b)
}

#[verifier::external_type_specification]
#[verifier::external_body]
pub struct ExColor(tiny_skia::Color);

/// The colour that `tiny_skia::Color::from_rgba8` builds from the four
/// 8-bit components.
pub uninterp spec fn rgba8_color(r: u8, g: u8, b: u8, a: u8) -> tiny_skia::Color;

/// Builds a colour with `tiny_skia::Color::from_rgba8`, which divides each
/// component by 255. The result is named `rgba8_color`.
#[verifier::external_body]
pub(crate) fn color_from_rgba8(r: u8, g: u8, b: u8, a: u8) -> (c: tiny_skia::Color)
    ensures
        c == rgba8_color(r, g, b, a),
{
    tiny_skia::Color::from_rgba8(r, g, b, a)
}

/// The notification's text: "created config" when `created_path` is set,
/// "failed to parse" otherwise.
pub open spec fn notification_spans(created_path: Option<Seq<char>>) -> Seq<(Seq<char>, SpanStyle)> {
    match created_path {
        Some(p) => seq![
            ("Created a default "@, SpanStyle::Normal),
            ("config file at "@, SpanStyle::Normal),
            (" "@ + path_debug_text(p) + " "@, SpanStyle::Key),
        ],
        None => seq![
            ("Failed to parse the config file. Please run "@, SpanStyle::Normal),
            (" niri validate "@, SpanStyle::Key),
            (" to see the errors."@, SpanStyle::Normal),
        ],
    }
}

/// The notification's border colour: red for "created", blue for "failed".
pub open spec fn notification_border(created: bool) -> tiny_skia::Color {
    if created {
        rgba8_color(255, 77, 77, 255)
    } else {
        rgba8_color(100, 100, 240, 255)
    }
}

/// Text and border colour of the config notification.
pub struct NotificationText {
    pub spans: Vec<Span>,
    pub border_color: tiny_skia::Color,
}

fn span(text: String, style: SpanStyle) -> (s: Span)
    ensures
        s.text@ == text@,
        s.style == style,
{
    Span { text, style }
}

/// Builds the config notification's text and border colour.
pub fn notification_text(created_path: Option<&str>) -> (t: NotificationText)
    ensures
        spans_view(t.spans@) == notification_spans(
            match created_path {
                Some(p) => Some(p@),
                None => None,
            },
        ),
        t.border_color == notification_border(created_path is Some),
{
    let mut spans: Vec<Span> = Vec::new();
    match created_path {
        Some(p) => {
            let mut label = " ".to_owned();
            let quoted = path_debug(p);
            label.append(quoted.as_str());
            label.append(" ");
            spans.push(span("Created a default ".to_owned(), SpanStyle::Normal));
            spans.push(span("config file at ".to_owned(), SpanStyle::Normal));
            spans.push(span(label, SpanStyle::Key));
            let border_color = color_from_rgba8(255, 77, 77, 255);
            proof {
                assert(spans_view(spans@) =~= notification_spans(Some(p@)));
            }
            NotificationText { spans, border_color }
        },
        None => {
            spans.push(
                span("Failed to parse the config file. Please run ".to_owned(), SpanStyle::Normal),
            );
            spans.push(span(" niri validate ".to_owned(), SpanStyle::Key));
            spans.push(span(" to see the errors.".to_owned(), SpanStyle::Normal));
            let border_color = color_from_rgba8(100, 100, 240, 255);
            proof {
                assert(spans_view(spans@) =~= notification_spans(None));
            }
            NotificationText { spans, border_color }
        },
    }
}

/// The exit dialog's text.
pub open spec fn exit_dialog_spans() -> Seq<(Seq<char>, SpanStyle)> {
    seq![
        ("Are you sure you want to exit niri?\n\n    Press "@, SpanStyle::Normal),
        (" Enter "@, SpanStyle::Key),
        (" to confirm."@, SpanStyle::Normal),
    ]
}

/// Builds the exit dialog's text.
pub fn exit_dialog_text() -> (spans: Vec<Span>)
    ensures
        spans_view(spans@) == exit_dialog_spans(),
{
    let mut spans: Vec<Span> = Vec::new();
    spans.push(
        span("Are you sure you want to exit niri?\n\n    Press ".to_owned(), SpanStyle::Normal),
    );
    spans.push(span(" Enter ".to_owned(), SpanStyle::Key));
    spans.push(span(" to confirm.".to_owned(), SpanStyle::Normal));
    proof {
        assert(spans_view(spans@) =~= exit_dialog_spans());
    }
    spans
}

/// The notification says, in three spans, that the config failed to parse
/// and that `niri validate` (as a key) shows the errors, with a blue border;
/// or, when a config was created at a path, that a default config file was
/// created there, the quoted path as a key, with a red border.
pub proof fn lemma_notification_message(path: Seq<char>)
    ensures
        notification_spans(None) =~= seq![
            ("Failed to parse the config file. Please run "@, SpanStyle::Normal),
            (" niri validate "@, SpanStyle::Key),
            (" to see the errors."@, SpanStyle::Normal),
        ],
        notification_spans(Some(path)) =~= seq![
            ("Created a default "@, SpanStyle::Normal),
            ("config file at "@, SpanStyle::Normal),
            (" "@ + path_debug_text(path) + " "@, SpanStyle::Key),
        ],
        notification_border(false) == rgba8_color(100, 100, 240, 255),
        notification_border(true) == rgba8_color(255, 77, 77, 255),
{
}

/// The exit dialog asks whether to exit niri and names Enter (as a key) as
/// the confirmation.
pub proof fn lemma_exit_dialog_message()
    ensures
        exit_dialog_spans() =~= seq![
            ("Are you sure you want to exit niri?\n\n    Press "@, SpanStyle::Normal),
            (" Enter "@, SpanStyle::Key),
            (" to confirm."@, SpanStyle::Normal),
        ],
{
}

/// Only the key style marks its glyphs with the key metadata.
pub proof fn lemma_key_metadata()
    ensures
        SpanStyle::Key.spec_metadata() == 1,
        SpanStyle::Normal.spec_metadata() == 0,
{
}

} // verus!
