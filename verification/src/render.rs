//! Decisions behind graphical rendering.
use vstd::prelude::*;
use crate::text::same_text;

verus! {

/// Whether the value of the `NO_COLOR` environment variable, if it is set,
/// asks for output without colors: any value but `0`, `false` and `no` does.
pub fn no_color_requested(value: Option<&str>) -> (no_color: bool)
    ensures
        no_color == match value {
            None => false,
            Some(v) => v@ != "0"@ && v@ != "false"@ && v@ != "no"@,
        },
{
    match value {
        None => false,
        Some(v) => !same_text(v, "0") && !same_text(v, "false") && !same_text(v, "no"),
    }
}

} // verus!
