//! How the spinner looks.

use vstd::prelude::*;

verus! {

/// Time between two frames of the animation, in milliseconds.
pub const TICK_MILLIS: u64 = 200;

/// The frame of a finished spinner: a heavy check mark, or a square root sign
/// on Windows, whose console may not draw the check mark.
pub open spec fn done_glyph(windows: bool) -> Seq<char> {
    if windows {
        "\u{221a}"@
    } else {
        "\u{2714}"@
    }
}

/// The frames of the animation in their order, the last one for a finished
/// spinner.
pub open spec fn frames(windows: bool) -> Seq<Seq<char>> {
    seq!["\u{2014}"@, "\\"@, "|"@, "/"@, done_glyph(windows)]
}

/// The spinner's line: `:: `, the frame, a space and the message.
pub open spec fn template() -> Seq<char> {
    ":: {spinner} {msg}"@
}

/// Gives [`done_glyph`].
pub fn finish_glyph(windows: bool) -> (r: &'static str)
    ensures
        r@ == done_glyph(windows),
{
    if windows {
        "\u{221a}"
    } else {
        "\u{2714}"
    }
}

/// Gives [`frames`].
pub fn tick_strings(windows: bool) -> (r: Vec<&'static str>)
    ensures
        r@.len() == 5,
        forall|i: int| 0 <= i < 5 ==> (#[trigger] r@[i])@ == frames(windows)[i],
{
    let mut out: Vec<&'static str> = Vec::new();
    out.push("\u{2014}");
    out.push("\\");
    out.push("|");
    out.push("/");
    out.push(finish_glyph(windows));
    out
}

/// Gives [`template`].
pub fn spinner_template() -> (r: &'static str)
    ensures
        r@ == template(),
{
    ":: {spinner} {msg}"
}

} // verus!
