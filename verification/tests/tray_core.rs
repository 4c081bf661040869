use std::cell::Cell;
use std::rc::Rc;

use tray_item::dispatch_decision;
use tray_item::drain_events;
use tray_item::encode_utf16_units;
use tray_item::default_toast_flags;
use tray_item::DispatchStep;
use tray_item::IconSource;
use tray_item::MenuEntry;
use tray_item::MenuRegistry;
use tray_item::TrayError;
use tray_item::TrayEvent;
use tray_item::TrayModel;
use tray_item::SHUTDOWN_SENTINEL;
use tray_item::TOAST_NO_ICON;
use tray_item::TOAST_SILENT;

type Callback = Box<dyn Fn()>;

fn counting_callback() -> (Rc<Cell<u32>>, Callback) {
    let counter = Rc::new(Cell::new(0u32));
    let inner = Rc::clone(&counter);
    let cb: Callback = Box::new(move || inner.set(inner.get() + 1));
    (counter, cb)
}

#[test]
fn encode_ascii() {
    let units = encode_utf16_units("ab");
    assert_eq!(units, vec![97u16, 98u16]);
}

#[test]
fn encode_empty() {
    let units = encode_utf16_units("");
    assert_eq!(units, Vec::<u16>::new());
}

#[test]
fn encode_bmp_char_single_unit() {
    let units = encode_utf16_units("\u{00E9}");
    assert_eq!(units, vec![0x00E9u16]);
}

#[test]
fn encode_supplementary_char_surrogate_pair() {
    let units = encode_utf16_units("\u{1D11E}");
    assert_eq!(units, vec![0xD834u16, 0xDD1Eu16]);
}

#[test]
fn ids_are_dense_from_zero() {
    let mut model: TrayModel<Callback> = TrayModel::new();
    let d0 = model.add_label_with_id("first");
    let d1 = model.add_menu_item_with_id("second", Box::new(|| ()));
    let d2 = model.add_separator_with_id();
    let d3 = model.add_label_with_id("third");
    assert_eq!(d0.id, 0);
    assert_eq!(d1.id, 1);
    assert_eq!(d2.id, 2);
    assert_eq!(d3.id, 3);
}

#[test]
fn label_and_separator_descriptors() {
    let mut model: TrayModel<Callback> = TrayModel::new();
    let label = model.add_label_with_id("hi");
    assert!(!label.separator);
    assert!(label.disabled);
    assert_eq!(label.text_units, vec![104u16, 105u16, 0u16]);
    let action = model.add_menu_item_with_id("hi", Box::new(|| ()));
    assert!(!action.separator);
    assert!(!action.disabled);
    assert_eq!(action.text_units, vec![104u16, 105u16, 0u16]);
    let sep = model.add_separator_with_id();
    assert!(sep.separator);
    assert_eq!(sep.text_units, Vec::<u16>::new());
}

#[test]
fn lookup_without_callback_is_noop() {
    let mut registry: MenuRegistry<Callback> = MenuRegistry::new();
    let label_id = registry.register(MenuEntry::Label(String::from("info")));
    let sep_id = registry.register(MenuEntry::Separator);
    assert!(registry.callback_for(label_id).is_none());
    assert!(registry.callback_for(sep_id).is_none());
    // A spurious identifier the native layer could deliver is no error either.
    assert!(registry.callback_for(999).is_none());
    assert!(registry.callback_for(SHUTDOWN_SENTINEL - 1).is_none());
}

#[test]
fn callback_invoked_once_per_click() {
    let (counter, cb) = counting_callback();
    let mut model: TrayModel<Callback> = TrayModel::new();
    model.add_label_with_id("L0");
    let action = model.add_menu_item_with_id("A1", cb);
    let clicks = vec![
        TrayEvent::Click(action.id),
        TrayEvent::Click(action.id),
        TrayEvent::Click(action.id),
    ];
    for id in drain_events(&clicks) {
        if let Some(run) = model.callback_for(id) {
            run();
        }
    }
    assert_eq!(counter.get(), 3);
}

#[test]
fn dispatch_decision_per_event() {
    assert_eq!(dispatch_decision(&TrayEvent::Click(3)), DispatchStep::Invoke(3));
    assert_eq!(dispatch_decision(&TrayEvent::Shutdown), DispatchStep::Stop);
}

#[test]
fn drain_keeps_click_order() {
    let clicks = vec![TrayEvent::Click(2), TrayEvent::Click(0), TrayEvent::Click(2)];
    assert_eq!(drain_events(&clicks), vec![2, 0, 2]);
}

#[test]
fn no_dispatch_after_sentinel() {
    let (counter, cb) = counting_callback();
    let mut model: TrayModel<Callback> = TrayModel::new();
    let action = model.add_menu_item_with_id("A1", cb);
    let queue = vec![
        TrayEvent::Click(action.id),
        TrayEvent::Click(action.id),
        TrayEvent::Shutdown,
        TrayEvent::Click(action.id),
        TrayEvent::Click(action.id),
    ];
    let dispatched = drain_events(&queue);
    assert_eq!(dispatched, vec![action.id, action.id]);
    for id in dispatched {
        if let Some(run) = model.callback_for(id) {
            run();
        }
    }
    // Only the clicks enqueued before the sentinel ever ran.
    assert_eq!(counter.get(), 2);
}

#[test]
fn tooltip_at_limit_accepted() {
    let model: TrayModel<Callback> = TrayModel::new();
    let text: String = "a".repeat(127);
    let buf = model.set_tooltip(&text).expect("tooltip of 127 units fits");
    assert_eq!(buf.len(), 128);
    assert!(buf[..127].iter().all(|&u| u == 97));
    assert_eq!(buf[127], 0);
}

#[test]
fn tooltip_over_limit_rejected() {
    let model: TrayModel<Callback> = TrayModel::new();
    let text: String = "a".repeat(128);
    assert_eq!(model.set_tooltip(&text), Err(TrayError::TooltipTooLong));
}

#[test]
fn tooltip_counts_utf16_units_not_chars() {
    let model: TrayModel<Callback> = TrayModel::new();
    // 64 surrogate-pair characters encode to 128 units: one too many.
    let wide: String = "\u{1D11E}".repeat(64);
    assert_eq!(model.set_tooltip(&wide), Err(TrayError::TooltipTooLong));
    let narrow: String = "\u{1D11E}".repeat(63);
    let buf = model.set_tooltip(&narrow).expect("126 units fit");
    assert_eq!(buf.len(), 128);
    assert_eq!(buf[0], 0xD834);
    assert_eq!(buf[1], 0xDD1E);
    assert_eq!(buf[126], 0);
    assert_eq!(buf[127], 0);
}

#[test]
fn toast_truncates_instead_of_rejecting() {
    let model: TrayModel<Callback> = TrayModel::new();
    let text: String = "a".repeat(300);
    let payload = model.show_toast(&text, None, None);
    assert_eq!(payload.info.len(), 256);
    assert!(payload.info[..255].iter().all(|&u| u == 97));
    assert_eq!(payload.info[255], 0);
}

#[test]
fn toast_short_text_zero_padded() {
    let model: TrayModel<Callback> = TrayModel::new();
    let payload = model.show_toast("hi", Some("t"), None);
    assert_eq!(payload.info.len(), 256);
    assert_eq!(&payload.info[..3], &[104, 105, 0]);
    assert!(payload.info[3..].iter().all(|&u| u == 0));
    assert_eq!(payload.info_title.len(), 256);
    assert_eq!(payload.info_title[0], 116);
    assert!(payload.info_title[1..].iter().all(|&u| u == 0));
}

#[test]
fn toast_missing_title_is_empty() {
    let model: TrayModel<Callback> = TrayModel::new();
    let payload = model.show_toast("x", None, None);
    assert!(payload.info_title.iter().all(|&u| u == 0));
}

#[test]
fn toast_flags_default_and_passthrough() {
    let model: TrayModel<Callback> = TrayModel::new();
    let defaulted = model.show_toast("x", None, None);
    assert_eq!(defaulted.info_flags, TOAST_NO_ICON | TOAST_SILENT);
    assert_eq!(defaulted.info_flags, default_toast_flags());
    let explicit = model.show_toast("x", None, Some(0x21));
    assert_eq!(explicit.info_flags, 0x21);
}

#[test]
fn set_label_unknown_id_fails() {
    let mut model: TrayModel<Callback> = TrayModel::new();
    model.add_label_with_id("only");
    assert_eq!(
        model.set_label("changed", 5).map(|d| d.id),
        Err(TrayError::InvalidId(5))
    );
    assert_eq!(
        model.set_menu_item_label("changed", 1).map(|d| d.id),
        Err(TrayError::InvalidId(1))
    );
}

#[test]
fn set_label_existing_id_reissues_text() {
    let mut model: TrayModel<Callback> = TrayModel::new();
    let d = model.add_label_with_id("old");
    let updated = model.set_label("new", d.id).expect("identifier exists");
    assert_eq!(updated.id, d.id);
    assert!(updated.disabled);
    assert_eq!(updated.text_units, vec![110u16, 101u16, 119u16, 0u16]);
    let (counter, cb) = counting_callback();
    let action = model.add_menu_item_with_id("act", cb);
    let renamed = model.set_menu_item_label("renamed", action.id).expect("identifier exists");
    assert!(!renamed.disabled);
    // The callback is kept across the rename.
    model.callback_for(action.id).expect("still an action")();
    assert_eq!(counter.get(), 1);
}

#[test]
fn set_label_keeps_slot_kind() {
    let mut model: TrayModel<Callback> = TrayModel::new();
    let sep = model.add_separator_with_id();
    // Renaming a separator slot does not turn it into a clickable entry.
    model.set_label("still a divider", sep.id).expect("identifier exists");
    assert!(model.callback_for(sep.id).is_none());
}

#[test]
fn sentinel_is_reserved_value() {
    assert_eq!(SHUTDOWN_SENTINEL, u32::MAX);
}

#[test]
fn quit_twice_is_noop() {
    let mut model: TrayModel<Callback> = TrayModel::new();
    let first = model.quit();
    assert!(first.join_native_loop);
    assert!(first.send_sentinel_and_join_dispatcher);
    let second = model.quit();
    assert!(!second.join_native_loop);
    assert!(!second.send_sentinel_and_join_dispatcher);
}

#[test]
fn icon_source_resource_name() {
    let icon = IconSource::Resource("app-icon");
    assert_eq!(icon.as_str(), "app-icon");
}

#[test]
fn end_to_end_build_click_quit() {
    let mut model: TrayModel<Callback> = TrayModel::new();
    let tooltip = model.set_tooltip("T").expect("short tooltip fits");
    assert_eq!(tooltip[0], 84);
    let label = model.add_label_with_id("L0");
    assert_eq!(label.id, 0);
    let (counter, cb) = counting_callback();
    let action = model.add_menu_item_with_id("A1", cb);
    assert_eq!(action.id, 1);
    let sep = model.add_separator_with_id();
    assert_eq!(sep.id, 2);
    let queue = vec![
        TrayEvent::Click(1),
        TrayEvent::Click(1),
        TrayEvent::Click(1),
        TrayEvent::Shutdown,
    ];
    for id in drain_events(&queue) {
        if let Some(run) = model.callback_for(id) {
            run();
        }
    }
    assert_eq!(counter.get(), 3);
    let plan = model.quit();
    assert!(plan.join_native_loop);
    assert!(plan.send_sentinel_and_join_dispatcher);
    let again = model.quit();
    assert!(!again.join_native_loop);
    assert!(!again.send_sentinel_and_join_dispatcher);
}
