//! The laws of the library: what rendering, restyling, clearing and the
//! force override guarantee, stated over the views and spec functions the
//! public contracts use.

use crate::color::Color;
use crate::policy::Policy;
use crate::styled::restyled;
use crate::styled::render_spec;
use crate::styled::styled_seq;
use crate::styled::StyledView;
use vstd::prelude::*;

verus! {

/// Rendering with styling forced off yields exactly the text, whatever
/// color is attached.
pub proof fn lemma_render_force_disabled(v: StyledView, p: Policy)
    requires
        p.force_view() == Some(false),
    ensures
        render_spec(v, p.enabled_spec()) == v.text,
{
}

/// Rendering a colored text with styling forced on yields exactly the
/// opening escape sequence (bold always set), the color parameter, the
/// text, and the reset sequence.
pub proof fn lemma_render_force_enabled(t: Seq<char>, c: Color, p: Policy)
    requires
        p.force_view() == Some(true),
    ensures
        render_spec(StyledView { text: t, color: Some(c) }, p.enabled_spec()) == styled_seq(t, c),
{
}

/// Clearing removes styling for good: a value whose color is gone renders
/// to its text whether styling is enabled or not.
pub proof fn lemma_clear_renders_plain(v: StyledView, enabled: bool)
    ensures
        render_spec(StyledView { text: v.text, color: None }, enabled) == v.text,
{
}

/// Restyling replaces the color outright: styling twice renders exactly as
/// styling once with the last color — the last write wins.
pub proof fn lemma_restyle_last_wins(v: StyledView, c1: Color, c2: Color, enabled: bool)
    ensures
        restyled(restyled(v, c1), c2) == restyled(v, c2),
        render_spec(restyled(restyled(v, c1), c2), enabled) == render_spec(
            restyled(v, c2),
            enabled,
        ),
{
}

/// Styling is transparent to the text: attaching any color to any styled
/// value leaves the text view untouched.
pub proof fn lemma_style_text_transparent(v: StyledView, c: Color)
    ensures
        restyled(v, c).text == v.text,
{
}

/// The force override takes precedence: forced on enables styling whatever
/// the probe said, forced off disables it, and no override restores the
/// probe-derived default.
pub proof fn lemma_force_precedence(p: Policy)
    ensures
        p.force_view() == Some(true) ==> p.enabled_spec(),
        p.force_view() == Some(false) ==> !p.enabled_spec(),
        p.force_view() == None::<bool> ==> p.enabled_spec() == p.auto_view(),
{
}

} // verus!
