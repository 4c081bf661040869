use vstd::prelude::*;

use crate::error::TrayError;
use crate::wide::encode_utf16_units;
use crate::wide::wide_of;

verus! {

/// Most UTF-16 units a tooltip may hold; the native buffer keeps one more
/// unit for the terminator.
pub const TOOLTIP_MAX_UNITS: usize = 127;

/// Size in units of the fixed native tooltip buffer.
pub const TOOLTIP_BUFFER_UNITS: usize = 128;

/// Most UTF-16 units a toast text or title may hold; longer input is
/// silently truncated to this many units.
pub const TOAST_MAX_UNITS: usize = 255;

/// Size in units of each fixed native toast buffer.
pub const TOAST_BUFFER_UNITS: usize = 256;

/// A sequence zero-padded on the right to exactly `n` units.
pub open spec fn zero_padded(w: Seq<u16>, n: nat) -> Seq<u16> {
    w + Seq::new((n - w.len()) as nat, |i: int| 0u16)
}

/// Whether a tooltip's encoding fits the fixed native buffer.
pub open spec fn tooltip_fits(s: Seq<char>) -> bool {
    wide_of(s).len() <= TOOLTIP_MAX_UNITS
}

/// The units a toast field keeps: the whole encoding when it fits, else
/// its first `TOAST_MAX_UNITS` units.
pub open spec fn toast_field_units(s: Seq<char>) -> Seq<u16> {
    if wide_of(s).len() <= TOAST_MAX_UNITS {
        wide_of(s)
    } else {
        wide_of(s).take(TOAST_MAX_UNITS as int)
    }
}

/// Builds the fixed-size tooltip buffer: the encoded text, terminated and
/// zero-padded. A text whose encoding exceeds `TOOLTIP_MAX_UNITS` is
/// rejected before any native call could be made with it.
pub fn tooltip_payload(text: &str) -> (r: Result<Vec<u16>, TrayError>)
    ensures
        r is Ok <==> tooltip_fits(text@),
        (r matches Ok(buf) ==> buf@ == zero_padded(wide_of(text@), TOOLTIP_BUFFER_UNITS as nat)),
        !tooltip_fits(text@) ==> r == Err::<Vec<u16>, TrayError>(TrayError::TooltipTooLong),
{
    let mut units = encode_utf16_units(text);
    if units.len() > TOOLTIP_MAX_UNITS {
        return Err(TrayError::TooltipTooLong);
    }
    assert(units@ =~= zero_padded(wide_of(text@), units@.len()));
    while units.len() < TOOLTIP_BUFFER_UNITS
        invariant
            units@.len() <= TOOLTIP_BUFFER_UNITS,
            wide_of(text@).len() <= units@.len(),
            units@ == zero_padded(wide_of(text@), units@.len()),
        decreases TOOLTIP_BUFFER_UNITS - units@.len(),
    {
        units.push(0);
        assert(units@ =~= zero_padded(wide_of(text@), units@.len()));
    }
    assert(units@ =~= zero_padded(wide_of(text@), TOOLTIP_BUFFER_UNITS as nat));
    Ok(units)
}

/// Builds one fixed-size toast buffer: the encoded text truncated to
/// `TOAST_MAX_UNITS` units when longer, then zero-padded. Truncation is
/// silent; nothing is rejected.
pub fn toast_field_payload(text: &str) -> (r: Vec<u16>)
    ensures
        r@ == zero_padded(toast_field_units(text@), TOAST_BUFFER_UNITS as nat),
        r@.len() == TOAST_BUFFER_UNITS,
{
    let mut units = encode_utf16_units(text);
    if units.len() > TOAST_MAX_UNITS {
        units.truncate(TOAST_MAX_UNITS);
        assert(units@ =~= toast_field_units(text@));
    }
    assert(units@ =~= zero_padded(toast_field_units(text@), units@.len()));
    while units.len() < TOAST_BUFFER_UNITS
        invariant
            units@.len() <= TOAST_BUFFER_UNITS,
            toast_field_units(text@).len() <= units@.len(),
            units@ == zero_padded(toast_field_units(text@), units@.len()),
        decreases TOAST_BUFFER_UNITS - units@.len(),
    {
        units.push(0);
        assert(units@ =~= zero_padded(toast_field_units(text@), units@.len()));
    }
    assert(units@ =~= zero_padded(toast_field_units(text@), TOAST_BUFFER_UNITS as nat));
    units
}

} // verus!
