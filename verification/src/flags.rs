use vstd::prelude::*;

verus! {

/// Style bits of a toast notification, passed through to the native
/// "modify notification" call. The values are the native ones; the set is
/// opaque to the rest of the core and only composed with bitwise or.
pub const TOAST_NO_ICON: u32 = 0x0;

/// Show the standard information icon beside the toast.
pub const TOAST_INFO_ICON: u32 = 0x1;

/// Show the standard warning icon beside the toast.
pub const TOAST_WARNING_ICON: u32 = 0x2;

/// Show the standard error icon beside the toast.
pub const TOAST_ERROR_ICON: u32 = 0x3;

/// Use the tray icon itself as the toast icon.
pub const TOAST_USER_ICON: u32 = 0x4;

/// Do not play the notification sound.
pub const TOAST_SILENT: u32 = 0x10;

/// Use the large version of the icon.
pub const TOAST_LARGE_ICON: u32 = 0x20;

/// Do not show the toast while quiet time is active.
pub const TOAST_QUIET: u32 = 0x80;

/// The style used when a toast names none: no icon, no sound.
pub open spec fn default_toast_style() -> u32 {
    TOAST_NO_ICON | TOAST_SILENT
}

/// The style a toast call falls back to when its caller passes none.
pub fn default_toast_flags() -> (r: u32)
    ensures
        r == default_toast_style(),
{
    TOAST_NO_ICON | TOAST_SILENT
}

} // verus!
