use vstd::prelude::*;

use crate::error::TrayError;
use crate::flags::default_toast_flags;
use crate::flags::default_toast_style;
use crate::lifecycle::QuitPlan;
use crate::lifecycle::ThreadLifecycle;
use crate::payload::toast_field_payload;
use crate::payload::toast_field_units;
use crate::payload::tooltip_fits;
use crate::payload::tooltip_payload;
use crate::payload::zero_padded;
use crate::payload::TOAST_BUFFER_UNITS;
use crate::payload::TOOLTIP_BUFFER_UNITS;
use crate::registry::MenuEntry;
use crate::registry::MenuRegistry;
use crate::registry::SHUTDOWN_SENTINEL;
use crate::wide::encode_utf16_units;
use crate::wide::wide_of;

verus! {

/// The icon a tray operation loads: an icon resource of the running
/// module, named by the resource string.
#[derive(Clone)]
pub enum IconSource {
    Resource(&'static str),
}

impl IconSource {
    /// The resource name the native icon-loading call receives.
    pub fn as_str(&self) -> (r: &str)
        ensures
            self matches IconSource::Resource(res) && r@ == res@,
    {
        match self {
            IconSource::Resource(res) => res,
        }
    }
}

/// What one menu slot means: its kind, its text as characters, and its
/// callback. This is the specification-level face of `MenuEntry`.
pub ghost enum EntrySpec<C> {
    Separator,
    Label(Seq<char>),
    Action(Seq<char>, C),
}

impl<C> EntrySpec<C> {
    /// Whether a click on this slot dispatches a callback.
    pub open spec fn has_callback(&self) -> bool {
        self is Action
    }

    /// The same slot with its text replaced; kind and callback are kept.
    pub open spec fn with_text(self, text: Seq<char>) -> EntrySpec<C> {
        match self {
            EntrySpec::Separator => EntrySpec::Separator,
            EntrySpec::Label(_) => EntrySpec::Label(text),
            EntrySpec::Action(_, c) => EntrySpec::Action(text, c),
        }
    }
}

/// The meaning of one registry slot.
pub open spec fn entry_spec_of<C>(e: MenuEntry<C>) -> EntrySpec<C> {
    match e {
        MenuEntry::Separator => EntrySpec::Separator,
        MenuEntry::Label(t) => EntrySpec::Label(t@),
        MenuEntry::Action(t, c) => EntrySpec::Action(t@, c),
    }
}

/// Everything the native "insert menu item" or "set menu item" call needs
/// for one slot: the command identifier, the item type, the initial
/// visual state, and the terminated wide text.
pub struct MenuItemDesc {
    /// The command identifier; equals the slot's registry index.
    pub id: u32,
    /// Insert as a separator instead of a text item.
    pub separator: bool,
    /// Insert disabled and non-highlightable, as label items are.
    pub disabled: bool,
    /// The item text, UTF-16 encoded and zero-terminated; empty for a
    /// separator.
    pub text_units: Vec<u16>,
}

/// Everything the native "modify notification" call needs for one toast:
/// both fixed-size text buffers and the style bits.
pub struct ToastPayload {
    /// The toast text, truncated and zero-padded to the fixed buffer.
    pub info: Vec<u16>,
    /// The toast title, truncated and zero-padded to the fixed buffer.
    pub info_title: Vec<u16>,
    /// The style bits, as given or the default.
    pub info_flags: u32,
}

/// The core state of one tray handle: the menu registry that correlates
/// identifiers with callbacks, and the ownership of the two background
/// threads. Native handles live outside; every operation here returns
/// the exact payload the matching native call must be made with.
pub struct TrayModel<C> {
    registry: MenuRegistry<C>,
    lifecycle: ThreadLifecycle,
}

impl<C> View for TrayModel<C> {
    type V = Seq<EntrySpec<C>>;

    closed spec fn view(&self) -> Seq<EntrySpec<C>> {
        self.registry@.map_values(|e: MenuEntry<C>| entry_spec_of(e))
    }
}

impl<C> TrayModel<C> {
    /// The native message-loop thread has not been joined yet.
    pub closed spec fn native_loop_held(&self) -> bool {
        self.lifecycle.native_loop_held
    }

    /// The dispatcher thread has not been joined yet.
    pub closed spec fn dispatcher_held(&self) -> bool {
        self.lifecycle.dispatcher_held
    }

    /// A fresh handle's core: no menu entries, both threads owned.
    pub fn new() -> (r: Self)
        ensures
            r@ == Seq::<EntrySpec<C>>::empty(),
            r.native_loop_held(),
            r.dispatcher_held(),
    {
        let r = TrayModel { registry: MenuRegistry::new(), lifecycle: ThreadLifecycle::new() };
        proof {
            assert(r@ =~= Seq::<EntrySpec<C>>::empty());
        }
        r
    }

    /// How many menu slots have been registered.
    pub fn len(&self) -> (n: usize)
        ensures
            n == self@.len(),
    {
        self.registry.len()
    }

    /// Registers an informational label and returns what to insert: the
    /// next dense identifier, a disabled text item.
    pub fn add_label_with_id(&mut self, label: &str) -> (d: MenuItemDesc)
        requires
            old(self)@.len() < SHUTDOWN_SENTINEL,
        ensures
            final(self)@ == old(self)@.push(EntrySpec::Label(label@)),
            d.id as int == old(self)@.len(),
            !d.separator,
            d.disabled,
            d.text_units@ == wide_of(label@).push(0u16),
            final(self).native_loop_held() == old(self).native_loop_held(),
            final(self).dispatcher_held() == old(self).dispatcher_held(),
    {
        let text = label.to_owned();
        let id = self.registry.register(MenuEntry::Label(text));
        proof {
            assert(self@ =~= old(self)@.push(EntrySpec::Label(label@)));
        }
        let mut units = encode_utf16_units(label);
        units.push(0);
        MenuItemDesc { id, separator: false, disabled: true, text_units: units }
    }

    /// Registers a clickable entry owning `cb` and returns what to
    /// insert: the next dense identifier, an enabled text item. The
    /// callback can never be replaced afterwards.
    pub fn add_menu_item_with_id(&mut self, label: &str, cb: C) -> (d: MenuItemDesc)
        requires
            old(self)@.len() < SHUTDOWN_SENTINEL,
        ensures
            final(self)@ == old(self)@.push(EntrySpec::Action(label@, cb)),
            d.id as int == old(self)@.len(),
            !d.separator,
            !d.disabled,
            d.text_units@ == wide_of(label@).push(0u16),
            final(self).native_loop_held() == old(self).native_loop_held(),
            final(self).dispatcher_held() == old(self).dispatcher_held(),
    {
        let text = label.to_owned();
        let id = self.registry.register(MenuEntry::Action(text, cb));
        proof {
            assert(self@ =~= old(self)@.push(EntrySpec::Action(label@, cb)));
        }
        let mut units = encode_utf16_units(label);
        units.push(0);
        MenuItemDesc { id, separator: false, disabled: false, text_units: units }
    }

    /// Registers a divider and returns what to insert under the next
    /// dense identifier.
    pub fn add_separator_with_id(&mut self) -> (d: MenuItemDesc)
        requires
            old(self)@.len() < SHUTDOWN_SENTINEL,
        ensures
            final(self)@ == old(self)@.push(EntrySpec::Separator),
            d.id as int == old(self)@.len(),
            d.separator,
            !d.disabled,
            d.text_units@ == Seq::<u16>::empty(),
            final(self).native_loop_held() == old(self).native_loop_held(),
            final(self).dispatcher_held() == old(self).dispatcher_held(),
    {
        let id = self.registry.register(MenuEntry::Separator);
        proof {
            assert(self@ =~= old(self)@.push(EntrySpec::Separator));
        }
        MenuItemDesc { id, separator: true, disabled: false, text_units: Vec::new() }
    }

    /// Replaces the text of an existing slot and returns what to hand the
    /// native "set menu item" call; `disabled` picks the visual state the
    /// item is re-issued with.
    fn update_entry_text(&mut self, label: &str, id: u32, disabled: bool) -> (r: Result<
        MenuItemDesc,
        TrayError,
    >)
        ensures
            r is Ok <==> id < old(self)@.len(),
            (id < old(self)@.len() ==> final(self)@ == old(self)@.update(
                id as int,
                old(self)@[id as int].with_text(label@),
            )),
            (id >= old(self)@.len() ==> final(self)@ == old(self)@ && r == Err::<
                MenuItemDesc,
                TrayError,
            >(TrayError::InvalidId(id))),
            (r matches Ok(d) ==> d.id == id && !d.separator && d.disabled == disabled
                && d.text_units@ == wide_of(label@).push(0u16)),
            final(self).native_loop_held() == old(self).native_loop_held(),
            final(self).dispatcher_held() == old(self).dispatcher_held(),
    {
        let text = label.to_owned();
        match self.registry.set_text(id, text) {
            Ok(()) => {
                proof {
                    assert(self@ =~= old(self)@.update(
                        id as int,
                        old(self)@[id as int].with_text(label@),
                    ));
                }
                let mut units = encode_utf16_units(label);
                units.push(0);
                Ok(MenuItemDesc { id, separator: false, disabled, text_units: units })
            },
            Err(e) => Err(e),
        }
    }

    /// Re-issues a label slot's text, keeping the disabled look of a
    /// label; an identifier never assigned fails with `InvalidId`.
    pub fn set_label(&mut self, label: &str, id: u32) -> (r: Result<MenuItemDesc, TrayError>)
        ensures
            r is Ok <==> id < old(self)@.len(),
            (id < old(self)@.len() ==> final(self)@ == old(self)@.update(
                id as int,
                old(self)@[id as int].with_text(label@),
            )),
            (id >= old(self)@.len() ==> final(self)@ == old(self)@ && r == Err::<
                MenuItemDesc,
                TrayError,
            >(TrayError::InvalidId(id))),
            (r matches Ok(d) ==> d.id == id && !d.separator && d.disabled && d.text_units@
                == wide_of(label@).push(0u16)),
            final(self).native_loop_held() == old(self).native_loop_held(),
            final(self).dispatcher_held() == old(self).dispatcher_held(),
    {
        self.update_entry_text(label, id, true)
    }

    /// Re-issues a clickable entry's text, keeping it enabled; an
    /// identifier never assigned fails with `InvalidId`.
    pub fn set_menu_item_label(&mut self, label: &str, id: u32) -> (r: Result<
        MenuItemDesc,
        TrayError,
    >)
        ensures
            r is Ok <==> id < old(self)@.len(),
            (id < old(self)@.len() ==> final(self)@ == old(self)@.update(
                id as int,
                old(self)@[id as int].with_text(label@),
            )),
            (id >= old(self)@.len() ==> final(self)@ == old(self)@ && r == Err::<
                MenuItemDesc,
                TrayError,
            >(TrayError::InvalidId(id))),
            (r matches Ok(d) ==> d.id == id && !d.separator && !d.disabled && d.text_units@
                == wide_of(label@).push(0u16)),
            final(self).native_loop_held() == old(self).native_loop_held(),
            final(self).dispatcher_held() == old(self).dispatcher_held(),
    {
        self.update_entry_text(label, id, false)
    }

    /// Builds the fixed tooltip buffer for the native call, rejecting a
    /// tooltip whose encoding exceeds the buffer before any native call
    /// could be made.
    pub fn set_tooltip(&self, tooltip: &str) -> (r: Result<Vec<u16>, TrayError>)
        ensures
            r is Ok <==> tooltip_fits(tooltip@),
            (r matches Ok(buf) ==> buf@ == zero_padded(
                wide_of(tooltip@),
                TOOLTIP_BUFFER_UNITS as nat,
            )),
            !tooltip_fits(tooltip@) ==> r == Err::<Vec<u16>, TrayError>(TrayError::TooltipTooLong),
    {
        tooltip_payload(tooltip)
    }

    /// Composes a toast: text and title each silently truncated to their
    /// fixed buffer, never rejected, and the style bits defaulted to
    /// no icon and no sound when the caller passes none.
    pub fn show_toast(&self, text: &str, title: Option<&str>, flags: Option<u32>) -> (p:
        ToastPayload)
        ensures
            p.info@ == zero_padded(toast_field_units(text@), TOAST_BUFFER_UNITS as nat),
            (title matches Some(t) ==> p.info_title@ == zero_padded(
                toast_field_units(t@),
                TOAST_BUFFER_UNITS as nat,
            )),
            (title is None ==> p.info_title@ == zero_padded(
                Seq::<u16>::empty(),
                TOAST_BUFFER_UNITS as nat,
            )),
            (flags matches Some(f) ==> p.info_flags == f),
            flags is None ==> p.info_flags == default_toast_style(),
    {
        let info = toast_field_payload(text);
        let info_title = match title {
            Some(t) => toast_field_payload(t),
            None => {
                let empty_title = toast_field_payload("");
                proof {
                    reveal_strlit("");
                    assert(""@ =~= Seq::<char>::empty());
                    assert(toast_field_units(""@) =~= Seq::<u16>::empty());
                }
                empty_title
            },
        };
        let info_flags = match flags {
            Some(f) => f,
            None => default_toast_flags(),
        };
        ToastPayload { info, info_title, info_flags }
    }

    /// The callback registered under an identifier: present exactly when
    /// the identifier names a clickable entry. A spurious identifier, or
    /// one of a label or separator, yields nothing and is never an error.
    pub fn callback_for(&self, id: u32) -> (r: Option<&C>)
        ensures
            r is Some <==> (id < self@.len() && self@[id as int].has_callback()),
            (r matches Some(c) ==> (self@[id as int] matches EntrySpec::Action(t, cb) && cb == *c)),
    {
        self.registry.callback_for(id)
    }

    /// Consumes whatever teardown is left: each step of the returned plan
    /// is owed exactly when its thread was still held, so a second call
    /// finds nothing to join and nothing to send. The menu is untouched.
    pub fn quit(&mut self) -> (plan: QuitPlan)
        ensures
            final(self)@ == old(self)@,
            !final(self).native_loop_held(),
            !final(self).dispatcher_held(),
            plan.join_native_loop == old(self).native_loop_held(),
            plan.send_sentinel_and_join_dispatcher == old(self).dispatcher_held(),
    {
        self.lifecycle.take_teardown()
    }
}

} // verus!
