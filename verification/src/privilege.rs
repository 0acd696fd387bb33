//! The privilege-sensitive prompt character.

use vstd::prelude::*;
use crate::style::{ColorName, StyledString};

verus! {

/// The fixed color of the superuser's prompt character.
pub open spec fn alert_color() -> ColorName {
    ColorName::Red
}

/// The fixed color of everyone else's prompt character.
pub open spec fn normal_color() -> ColorName {
    ColorName::Green
}

/// Select the prompt character by effective user id: the superuser
/// (id zero) gets the root character in the alert color, anyone else
/// the normal character in the normal color.
pub fn select(effective_uid: u32, normal_char: &str, root_char: &str) -> (r: StyledString)
    ensures
        effective_uid == 0 ==> r.text@ == root_char@ && r.color == alert_color(),
        effective_uid != 0 ==> r.text@ == normal_char@ && r.color == normal_color(),
        r.dim == false,
{
    if effective_uid == 0 {
        StyledString { text: root_char.to_owned(), color: ColorName::Red, dim: false }
    } else {
        StyledString { text: normal_char.to_owned(), color: ColorName::Green, dim: false }
    }
}

} // verus!
