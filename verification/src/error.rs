use vstd::prelude::*;

verus! {

/// Errors surfaced by the tray subsystem.
///
/// Every native call reports failure synchronously through one of these;
/// construction failure is the only error that prevents a usable handle
/// from existing at all.
#[derive(Debug, PartialEq, Eq)]
pub enum TrayError {
    /// The native context (window, menu, module handle) could not be created.
    InitError(String),
    /// An operation addressed a menu-item identifier that does not exist.
    InvalidId(u32),
    /// A tooltip longer than the fixed native buffer was rejected before
    /// any native call was attempted.
    TooltipTooLong,
    /// An icon resource could not be loaded or applied.
    IconError(String),
    /// Any other native call that reported failure, with its description.
    OsCallFailed(String),
}

} // verus!
