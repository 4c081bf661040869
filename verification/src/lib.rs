//! The verified core of a system-tray handle: the menu registry that
//! correlates item identifiers with callbacks, the fixed-size native text
//! payloads for tooltip and toast calls, the dispatcher's event handling,
//! and the teardown protocol for the two background threads. The native
//! message loop, the threads and the OS calls themselves live outside;
//! they act only on the payloads and plans this crate hands them.

mod dispatch;
mod error;
mod flags;
mod lifecycle;
mod payload;
mod registry;
mod tray;
mod wide;

pub use dispatch::decision_of;
pub use dispatch::dispatch_decision;
pub use dispatch::dispatched_ids;
pub use dispatch::drain_events;
pub use dispatch::lemma_each_click_dispatched_once;
pub use dispatch::lemma_no_dispatch_after_shutdown;
pub use dispatch::lemma_sentinel_is_last;
pub use dispatch::DispatchStep;
pub use dispatch::TrayEvent;
pub use error::TrayError;
pub use flags::default_toast_flags;
pub use flags::default_toast_style;
pub use flags::TOAST_ERROR_ICON;
pub use flags::TOAST_INFO_ICON;
pub use flags::TOAST_LARGE_ICON;
pub use flags::TOAST_NO_ICON;
pub use flags::TOAST_QUIET;
pub use flags::TOAST_SILENT;
pub use flags::TOAST_USER_ICON;
pub use flags::TOAST_WARNING_ICON;
pub use lifecycle::lemma_second_quit_is_noop;
pub use lifecycle::quit_transition;
pub use lifecycle::QuitPlan;
pub use lifecycle::ThreadLifecycle;
pub use payload::toast_field_payload;
pub use payload::toast_field_units;
pub use payload::tooltip_fits;
pub use payload::tooltip_payload;
pub use payload::zero_padded;
pub use payload::TOAST_BUFFER_UNITS;
pub use payload::TOAST_MAX_UNITS;
pub use payload::TOOLTIP_BUFFER_UNITS;
pub use payload::TOOLTIP_MAX_UNITS;
pub use registry::lemma_registration_ids_dense;
pub use registry::registration_run;
pub use registry::registration_step;
pub use registry::MenuEntry;
pub use registry::MenuRegistry;
pub use registry::SHUTDOWN_SENTINEL;
pub use tray::entry_spec_of;
pub use tray::EntrySpec;
pub use tray::IconSource;
pub use tray::MenuItemDesc;
pub use tray::ToastPayload;
pub use tray::TrayModel;
pub use wide::encode_utf16_units;
pub use wide::lemma_wide_of_concat;
pub use wide::lemma_wide_of_take_succ;
pub use wide::utf16_units;
pub use wide::wide_of;
