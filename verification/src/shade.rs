//! The colours on which the squares of the board are drawn.

use crate::coords::Coords;
use colored::CustomColor;
use vstd::prelude::*;

verus! {

/// `colored::CustomColor`: a colour as its red, green and blue parts, in
/// the public fields `r`, `g` and `b`.
#[verifier::external_type_specification]
pub struct ExCustomColor(CustomColor);

/// `colored::CustomColor::new` builds the colour whose three fields are its
/// three arguments, in the order red, green, blue.
pub assume_specification[ CustomColor::new ](r: u8, g: u8, b: u8) -> (res: CustomColor)
    ensures
        res.r == r,
        res.g == g,
        res.b == b,
;

/// Whether a colour has the given red, green and blue parts.
pub open spec fn has_parts(color: CustomColor, r: int, g: int, b: int) -> bool {
    color.r == r && color.g == g && color.b == b
}

/// The background on which a square is drawn: a light one where the file
/// and the rank add up to an odd number, as on `a1`, and a dark one
/// elsewhere, so that the shades alternate along every file and rank.
pub fn get_bg_color(coords: Coords) -> (res: CustomColor)
    ensures
        coords.is_light() ==> has_parts(res, 204, 183, 174),
        !coords.is_light() ==> has_parts(res, 112, 102, 119),
{
    let light_bg = CustomColor::new(204, 183, 174);
    let dark_bg = CustomColor::new(112, 102, 119);
    if (coords.rank % 2 == 1) != (coords.file % 2 == 1) {
        light_bg
    } else {
        dark_bg
    }
}

} // verus!
