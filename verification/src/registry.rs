use vstd::prelude::*;

use crate::error::TrayError;

verus! {

/// The event value reserved as the dispatcher's shutdown signal; no menu
/// entry may ever be registered under it.
pub const SHUTDOWN_SENTINEL: u32 = 0xFFFF_FFFF;

/// One slot of the menu registry. A slot's kind and callback are fixed at
/// registration; only its text can change afterwards.
pub enum MenuEntry<C> {
    /// A divider without text or callback; never clickable.
    Separator,
    /// Informational text without a callback; rendered disabled.
    Label(String),
    /// Clickable text with the callback a click dispatches to.
    Action(String, C),
}

impl<C> MenuEntry<C> {
    /// Whether a click on this slot dispatches a callback.
    pub open spec fn has_callback(&self) -> bool {
        self is Action
    }

    /// The same slot with its text replaced; kind and callback are kept.
    pub open spec fn with_text(self, text: String) -> MenuEntry<C> {
        match self {
            MenuEntry::Separator => MenuEntry::Separator,
            MenuEntry::Label(_) => MenuEntry::Label(text),
            MenuEntry::Action(_, c) => MenuEntry::Action(text, c),
        }
    }
}

/// The ordered table correlating menu-item identifiers with optional
/// callbacks. Identifiers are the slot indices, so they are assigned
/// densely from zero and never reused while the registry lives.
pub struct MenuRegistry<C> {
    entries: Vec<MenuEntry<C>>,
}

impl<C> View for MenuRegistry<C> {
    type V = Seq<MenuEntry<C>>;

    closed spec fn view(&self) -> Seq<MenuEntry<C>> {
        self.entries@
    }
}

impl<C> MenuRegistry<C> {
    /// An empty registry: no identifier has been assigned yet.
    pub fn new() -> (r: Self)
        ensures
            r@ == Seq::<MenuEntry<C>>::empty(),
    {
        MenuRegistry { entries: Vec::new() }
    }

    /// How many slots have been registered.
    pub fn len(&self) -> (n: usize)
        ensures
            n == self@.len(),
    {
        self.entries.len()
    }

    /// Appends a slot and returns its identifier: always the number of
    /// slots registered before it, so successive identifiers are dense.
    pub fn register(&mut self, entry: MenuEntry<C>) -> (id: u32)
        requires
            old(self)@.len() < SHUTDOWN_SENTINEL,
        ensures
            final(self)@ == old(self)@.push(entry),
            id as int == old(self)@.len(),
            id < SHUTDOWN_SENTINEL,
    {
        let id = self.entries.len() as u32;
        self.entries.push(entry);
        id
    }

    /// The callback registered under an identifier: present exactly when
    /// the identifier names an action slot. A spurious identifier, or one
    /// of a label or separator, yields nothing and is never an error.
    pub fn callback_for(&self, id: u32) -> (r: Option<&C>)
        ensures
            r is Some <==> (id < self@.len() && self@[id as int].has_callback()),
            (r matches Some(c) ==> (self@[id as int] matches MenuEntry::Action(t, cb) && cb == *c)),
    {
        if (id as usize) < self.entries.len() {
            match &self.entries[id as usize] {
                MenuEntry::Action(_, c) => Some(c),
                MenuEntry::Separator => None,
                MenuEntry::Label(_) => None,
            }
        } else {
            None
        }
    }

    /// Replaces the text of an existing slot, keeping its kind and
    /// callback; an identifier never assigned fails with `InvalidId` and
    /// changes nothing.
    pub fn set_text(&mut self, id: u32, text: String) -> (r: Result<(), TrayError>)
        ensures
            r is Ok <==> id < old(self)@.len(),
            (id < old(self)@.len() ==> final(self)@ == old(self)@.update(
                id as int,
                old(self)@[id as int].with_text(text),
            )),
            (id >= old(self)@.len() ==> final(self)@ == old(self)@ && r == Err::<
                (),
                TrayError,
            >(TrayError::InvalidId(id))),
    {
        if (id as usize) < self.entries.len() {
            let prior = self.entries.remove(id as usize);
            let renamed = match prior {
                MenuEntry::Separator => MenuEntry::Separator,
                MenuEntry::Label(_) => MenuEntry::Label(text),
                MenuEntry::Action(_, c) => MenuEntry::Action(text, c),
            };
            self.entries.insert(id as usize, renamed);
            proof {
                assert(self.entries@ =~= old(self)@.update(
                    id as int,
                    old(self)@[id as int].with_text(text),
                ));
            }
            Ok(())
        } else {
            Err(TrayError::InvalidId(id))
        }
    }
}

/// The shape of one registration: the table grows by the registered entry
/// and the identifier handed back is the table's prior length. This is
/// exactly what `MenuRegistry::register` ensures.
pub open spec fn registration_step<C>(
    pre: Seq<MenuEntry<C>>,
    post: Seq<MenuEntry<C>>,
    entry: MenuEntry<C>,
    id: u32,
) -> bool {
    post == pre.push(entry) && id as int == pre.len()
}

/// A run of registrations: `tables[0]` is the starting table and each
/// `ids[i]` was returned by registering `adds[i]` against `tables[i]`.
pub open spec fn registration_run<C>(
    tables: Seq<Seq<MenuEntry<C>>>,
    adds: Seq<MenuEntry<C>>,
    ids: Seq<u32>,
) -> bool {
    &&& tables.len() == adds.len() + 1
    &&& ids.len() == adds.len()
    &&& forall|i: int|
        0 <= i < adds.len() ==> #[trigger] registration_step(
            tables[i],
            tables[i + 1],
            adds[i],
            ids[i],
        )
}

/// Law: over any run of registrations that starts from an empty table,
/// the returned identifiers are dense from zero — the i-th registration
/// returns i — and hence strictly increasing.
pub proof fn lemma_registration_ids_dense<C>(
    tables: Seq<Seq<MenuEntry<C>>>,
    adds: Seq<MenuEntry<C>>,
    ids: Seq<u32>,
)
    requires
        registration_run(tables, adds, ids),
        tables[0].len() == 0,
    ensures
        forall|i: int| 0 <= i < ids.len() ==> (#[trigger] ids[i]) as int == i,
        forall|i: int, j: int| 0 <= i < j < ids.len() ==> ids[i] < ids[j],
{
    assert forall|i: int| 0 <= i < ids.len() implies (#[trigger] ids[i]) as int == i by {
        lemma_run_table_len(tables, adds, ids, i);
        assert(registration_step(tables[i], tables[i + 1], adds[i], ids[i]));
    }
    assert forall|i: int, j: int| 0 <= i < j < ids.len() implies ids[i] < ids[j] by {
        assert(ids[i] as int == i);
        assert(ids[j] as int == j);
    }
}

/// Within a run, the i-th table holds exactly the first i registered
/// entries beyond the starting table.
proof fn lemma_run_table_len<C>(
    tables: Seq<Seq<MenuEntry<C>>>,
    adds: Seq<MenuEntry<C>>,
    ids: Seq<u32>,
    i: int,
)
    requires
        registration_run(tables, adds, ids),
        0 <= i < tables.len(),
    ensures
        tables[i].len() == tables[0].len() + i,
    decreases i,
{
    if i > 0 {
        let k = i - 1;
        lemma_run_table_len(tables, adds, ids, k);
        assert(registration_step(tables[k], tables[k + 1], adds[k], ids[k]));
        assert(tables[i] == tables[k + 1]);
    }
}

} // verus!
