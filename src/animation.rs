use vstd::prelude::*;

use crate::text::{contains_seq, decimal_text, i32_text, replace_all, str_contains, str_replace, text_eq};

verus! {

/// How the launcher's window opens.
#[derive(Debug, Clone, Copy, PartialEq, Eq, Structural)]
pub enum StartKind {
    /// Shown at once; the box slides up a moment later.
    Slide,
    /// Faded in from transparent while the box slides up.
    Fade,
    /// Shown at once with the box already in place.
    Instant,
}

/// How the launcher's window closes.
#[derive(Debug, Clone, Copy, PartialEq, Eq, Structural)]
pub enum ExitPlan {
    /// The box slides away and the launcher quits after it.
    Slide,
    /// The window fades out while the box slides away, then the launcher quits.
    Fade,
    /// The launcher quits at once.
    Quit,
}

/// The opening animation and the stylesheet it runs with.
pub struct StartPlan {
    pub kind: StartKind,
    pub css: String,
}

/// An animation setting: only "false" turns it off.
pub open spec fn animation_on(s: Seq<char>) -> bool {
    s != "false"@
}

/// The opening animation: in a window ("fullscreen" is "false") it slides,
/// in full screen ("true") it fades; turned off, or with any other
/// "fullscreen", the window opens at once.
pub open spec fn start_kind_of(fullscreen: Seq<char>, start_animation: Seq<char>) -> StartKind {
    if fullscreen == "false"@ && animation_on(start_animation) {
        StartKind::Slide
    } else if fullscreen == "true"@ && animation_on(start_animation) {
        StartKind::Fade
    } else {
        StartKind::Instant
    }
}

/// The closing animation: a "fullscreen" other than "false" counts as full
/// screen, where the window fades; in a window it slides; turned off, the
/// launcher quits at once.
pub open spec fn exit_plan_of(exit_animation: Seq<char>, fullscreen: Seq<char>) -> ExitPlan {
    if !animation_on(exit_animation) {
        ExitPlan::Quit
    } else if fullscreen == "false"@ {
        ExitPlan::Slide
    } else {
        ExitPlan::Fade
    }
}

/// The rule in the stylesheet that puts the box at its resting place.
pub open spec fn resting_rule() -> Seq<char> {
    "transform: translateY(1px);"@
}

/// The rule that moves the box down by `offset` pixels.
pub open spec fn offset_rule(offset: int) -> Seq<char> {
    "transform: translateY("@ + decimal_text(offset) + "px);"@
}

/// How far the box starts below its place: the window's height, or in a
/// fade the given full-screen offset.
pub open spec fn start_offset(kind: StartKind, window_height: i32, fade_offset: i32) -> i32 {
    if kind == StartKind::Fade {
        fade_offset
    } else {
        window_height
    }
}

/// Plans the opening animation from the configured "fullscreen" and
/// "start-animation", the stylesheet, the window's height, and the offset
/// that a full-screen fade starts from. The box's resting rule is moved down
/// by the offset everywhere in the stylesheet. `None`, and nothing to
/// animate, when the stylesheet has no resting rule.
pub fn plan_start(
    fullscreen: &str,
    start_animation: &str,
    css: &str,
    window_height: i32,
    fade_offset: i32,
) -> (r: Option<StartPlan>)
    ensures
        r is None <==> !contains_seq(css@, resting_rule()),
        r matches Some(p) ==> {
            &&& p.kind == start_kind_of(fullscreen@, start_animation@)
            &&& p.css@ == replace_all(
                css@,
                resting_rule(),
                offset_rule(start_offset(p.kind, window_height, fade_offset) as int),
            )
        },
{
    let from = "transform: translateY(1px);";
    if !str_contains(css, from) {
        return None;
    }
    let on = !text_eq(start_animation, "false");
    let kind = if text_eq(fullscreen, "false") && on {
        StartKind::Slide
    } else if text_eq(fullscreen, "true") && on {
        StartKind::Fade
    } else {
        StartKind::Instant
    };
    let offset = if kind == StartKind::Fade {
        fade_offset
    } else {
        window_height
    };
    let to = String::from_str("transform: translateY(").concat(i32_text(offset).as_str()).concat(
        "px);",
    );
    proof {
        reveal_strlit("transform: translateY(1px);");
    }
    let css = str_replace(css, from, to.as_str());
    Some(StartPlan { kind, css })
}

/// Plans the closing animation from the configured "exit-animation" and
/// "fullscreen" (see `exit_plan_of`).
pub fn plan_exit(exit_animation: &str, fullscreen: &str) -> (r: ExitPlan)
    ensures
        r == exit_plan_of(exit_animation@, fullscreen@),
{
    if text_eq(exit_animation, "false") {
        ExitPlan::Quit
    } else if text_eq(fullscreen, "false") {
        ExitPlan::Slide
    } else {
        ExitPlan::Fade
    }
}

} // verus!
