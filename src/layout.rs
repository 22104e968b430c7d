use vstd::prelude::*;

use crate::engine::valid_position;

verus! {

/// The first column of a text `width` columns wide, centred on a screen
/// `cols` columns wide; 0 where the text is too wide to centre.
pub open spec fn centred_at(cols: int, width: int) -> int {
    if width / 2 >= cols / 2 {
        0
    } else {
        cols / 2 - width / 2
    }
}

/// The first column at which a text `width` columns wide stands centred.
pub fn centered_column(cols: u16, width: usize) -> (r: u16)
    ensures
        r == centred_at(cols as int, width as int),
{
    let half_cols = cols / 2;
    let half_width = width / 2;
    if half_width >= half_cols as usize {
        0
    } else {
        half_cols - (half_width as u16)
    }
}

/// The symbol shown for a position: a mark that moves one place to the
/// right with each beat of the bar.
pub open spec fn symbol_of(position: int) -> Seq<char> {
    if position == 1 {
        "\\..."@
    } else if position == 2 {
        ".|.."@
    } else if position == 3 {
        "../."@
    } else {
        "...-"@
    }
}

/// The symbol that shows `position` within the bar.
pub fn beat_symbol(position: u32) -> (r: &'static str)
    requires
        valid_position(position as int),
    ensures
        r@ == symbol_of(position as int),
{
    if position == 1 {
        "\\..."
    } else if position == 2 {
        ".|.."
    } else if position == 3 {
        "../."
    } else {
        "...-"
    }
}

/// Whether `c` names a key in the help legend, which sets it apart.
pub fn is_key_hint(c: char) -> (r: bool)
    ensures
        r == (c == '+' || c == '-' || c == 'q'),
{
    c == '+' || c == '-' || c == 'q'
}

} // verus!
