use vstd::prelude::*;

verus! {

/// Width of the display line, in characters.
pub const DISPLAY_WIDTH: usize = 19;

/// Width left for an operand once its two-character operator glyph is shown.
pub const OPERAND_WIDTH: usize = DISPLAY_WIDTH - 2;

/// Characters of a scientific rendering that are not mantissa digits after the
/// point: sign, leading digit, point, exponent marker and exponent.
pub const SCIENTIFIC_OVERHEAD: usize = 7;

/// How a numeric text is to be shown in a field of bounded width.
#[derive(Debug)]
pub enum Formatted {
    /// The text fits and is shown as it is.
    Plain(String),
    /// The text is too long: its value is to be shown in scientific notation
    /// with `precision` digits after the mantissa's point.
    Scientific { text: String, precision: usize },
}

/// Decides how `cool_str` is shown in `max_width` characters: unchanged when
/// it fits (the empty text included), else in scientific notation with
/// `max_width - 7` mantissa digits.
pub fn format_number(cool_str: String, max_width: usize) -> (r: Formatted)
    requires
        cool_str@.len() > max_width ==> max_width >= SCIENTIFIC_OVERHEAD,
    ensures
        cool_str@.len() <= max_width ==> r is Plain && r->Plain_0@ == cool_str@,
        cool_str@.len() > max_width ==> r is Scientific && r->Scientific_text@ == cool_str@
            && r->Scientific_precision == max_width - SCIENTIFIC_OVERHEAD,
{
    let n = cool_str.as_str().unicode_len();
    if n > max_width {
        Formatted::Scientific { text: cool_str, precision: max_width - SCIENTIFIC_OVERHEAD }
    } else {
        Formatted::Plain(cool_str)
    }
}

} // verus!
