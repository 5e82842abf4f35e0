//! Styled strings: a text payload with an optional foreground color, and
//! their rendering to ANSI escape sequences.

use crate::color::code_spec;
use crate::color::Color;
use crate::policy::Policy;
use vstd::prelude::*;
use vstd::string::StringExecFns;

verus! {

/// The mathematical content of a [`ColorString`]: its text and its color.
pub struct StyledView {
    pub text: Seq<char>,
    pub color: Option<Color>,
}

/// The view after restyling: the text is kept, the color replaced.
pub open spec fn restyled(v: StyledView, c: Color) -> StyledView {
    StyledView { text: v.text, color: Some(c) }
}

/// The escape-sequence form of a colored text: `ESC [ 1 ;` then the color
/// parameter, `m`, the text, and the reset sequence `ESC [ 0 m`. Bold is
/// always set, so the bright colors stay bright.
pub open spec fn styled_seq(text: Seq<char>, c: Color) -> Seq<char> {
    "\u{1b}[1;"@ + code_spec(c) + "m"@ + text + "\u{1b}[0m"@
}

/// What rendering yields: the bare text when no color is set or styling is
/// disabled, the escape-sequence form otherwise.
pub open spec fn render_spec(v: StyledView, enabled: bool) -> Seq<char> {
    match v.color {
        None => v.text,
        Some(c) => if enabled {
            styled_seq(v.text, c)
        } else {
            v.text
        },
    }
}

/// A text payload with an optional foreground color.
///
/// The payload is fixed at construction; combinator calls return a value
/// with the same payload and a replaced color. Rendering consults a
/// [`Policy`] and never emits a partial escape sequence.
#[derive(Debug)]
pub struct ColorString {
    inner: String,
    fg_color: Option<Color>,
}

impl View for ColorString {
    type V = StyledView;

    closed spec fn view(&self) -> StyledView {
        StyledView { text: self.inner@, color: self.fg_color }
    }
}

/// Anything that can take a foreground color, yielding a [`ColorString`]:
/// plain text, or an already styled string, whose previous color is then
/// replaced — the last write wins.
pub trait Colorable: Sized {
    /// The text payload that styling preserves.
    spec fn text_view(self) -> Seq<char>;

    /// Attach `color` as the foreground color, keeping the text.
    fn set_fg_style(self, color: Color) -> (r: ColorString)
        ensures
            r@.text == self.text_view(),
            r@.color == Some(color),
    ;

    /// Style with black.
    fn black(self) -> (r: ColorString)
        ensures
            r@.text == self.text_view(),
            r@.color == Some(Color::Black),
    {
        self.set_fg_style(Color::Black)
    }

    /// Style with red.
    fn red(self) -> (r: ColorString)
        ensures
            r@.text == self.text_view(),
            r@.color == Some(Color::Red),
    {
        self.set_fg_style(Color::Red)
    }

    /// Style with green.
    fn green(self) -> (r: ColorString)
        ensures
            r@.text == self.text_view(),
            r@.color == Some(Color::Green),
    {
        self.set_fg_style(Color::Green)
    }

    /// Style with yellow.
    fn yellow(self) -> (r: ColorString)
        ensures
            r@.text == self.text_view(),
            r@.color == Some(Color::Yellow),
    {
        self.set_fg_style(Color::Yellow)
    }

    /// Style with blue.
    fn blue(self) -> (r: ColorString)
        ensures
            r@.text == self.text_view(),
            r@.color == Some(Color::Blue),
    {
        self.set_fg_style(Color::Blue)
    }

    /// Style with magenta.
    fn magenta(self) -> (r: ColorString)
        ensures
            r@.text == self.text_view(),
            r@.color == Some(Color::Magenta),
    {
        self.set_fg_style(Color::Magenta)
    }

    /// Style with cyan.
    fn cyan(self) -> (r: ColorString)
        ensures
            r@.text == self.text_view(),
            r@.color == Some(Color::Cyan),
    {
        self.set_fg_style(Color::Cyan)
    }

    /// Style with white.
    fn white(self) -> (r: ColorString)
        ensures
            r@.text == self.text_view(),
            r@.color == Some(Color::White),
    {
        self.set_fg_style(Color::White)
    }
}

impl Colorable for ColorString {
    open spec fn text_view(self) -> Seq<char> {
        self@.text
    }

    fn set_fg_style(self, color: Color) -> (r: ColorString) {
        ColorString { inner: self.inner, fg_color: Some(color) }
    }
}

impl<'a> Colorable for &'a str {
    open spec fn text_view(self) -> Seq<char> {
        self@
    }

    fn set_fg_style(self, color: Color) -> (r: ColorString) {
        ColorString { inner: String::from_str(self), fg_color: Some(color) }
    }
}

impl ColorString {
    /// The ANSI parameter string of the attached color, or the empty string
    /// when no color is set.
    pub fn color(&self) -> (r: String)
        ensures
            r@ == (match self@.color {
                Some(c) => code_spec(c),
                None => Seq::<char>::empty(),
            }),
    {
        match self.fg_color {
            Some(c) => c.code(),
            None => String::new(),
        }
    }

    /// The payload with all styling removed.
    pub fn clear(&self) -> (r: String)
        ensures
            r@ == self@.text,
    {
        self.inner.clone()
    }

    /// Read-only access to the payload, untouched by color or policy.
    pub fn deref(&self) -> (r: &str)
        ensures
            r@ == self@.text,
    {
        self.inner.as_str()
    }

    /// Render under the given policy: the payload alone when no color is
    /// set or styling is disabled, otherwise the payload wrapped in the
    /// opening escape sequence and the reset sequence — emitted whole, with
    /// the reset always present.
    pub fn render(&self, p: &Policy) -> (r: String)
        ensures
            r@ == render_spec(self@, p.enabled_spec()),
    {
        match self.fg_color {
            None => self.inner.clone(),
            Some(c) => {
                if Color::enabled(p) {
                    let mut out = String::from_str("\u{1b}[1;");
                    let code = c.code();
                    out.append(code.as_str());
                    out.append("m");
                    out.append(self.inner.as_str());
                    out.append("\u{1b}[0m");
                    proof {
                        assert(out@ =~= styled_seq(self@.text, c));
                    }
                    out
                } else {
                    self.inner.clone()
                }
            },
        }
    }
}

impl Default for ColorString {
    /// An empty payload with no color attached.
    fn default() -> (r: ColorString)
        ensures
            r@.text == Seq::<char>::empty(),
            r@.color == None::<Color>,
    {
        ColorString { inner: String::new(), fg_color: None }
    }
}

impl PartialEq for ColorString {
    /// Styling-aware equality: payload and color both compared.
    fn eq(&self, other: &ColorString) -> (r: bool) {
        self.inner == other.inner && (match (self.fg_color, other.fg_color) {
            (None, None) => true,
            (Some(a), Some(b)) => a == b,
            _ => false,
        })
    }
}

impl vstd::std_specs::cmp::PartialEqSpecImpl for ColorString {
    open spec fn obeys_eq_spec() -> bool {
        true
    }

    open spec fn eq_spec(&self, other: &ColorString) -> bool {
        self@.text == other@.text && self@.color == other@.color
    }
}

} // verus!
