use vstd::prelude::*;

verus! {

/// One value carried over the event channel from the native loop to the
/// dispatcher: a menu click, or the distinguished shutdown signal that the
/// handle sends only after the native loop has terminated.
#[derive(PartialEq, Eq, Structural, Clone, Copy, Debug)]
pub enum TrayEvent {
    /// A click on the menu item with this identifier.
    Click(u32),
    /// The sentinel: the dispatcher must exit without reading further.
    Shutdown,
}

/// What the dispatcher does with one received event.
#[derive(PartialEq, Eq, Structural, Clone, Copy, Debug)]
pub enum DispatchStep {
    /// Look the identifier up in the registry and, when a callback is
    /// registered under it, invoke that callback once.
    Invoke(u32),
    /// Leave the receive loop; the dispatcher thread ends.
    Stop,
}

/// The dispatcher's decision for a single event.
pub open spec fn decision_of(ev: TrayEvent) -> DispatchStep {
    match ev {
        TrayEvent::Click(id) => DispatchStep::Invoke(id),
        TrayEvent::Shutdown => DispatchStep::Stop,
    }
}

/// Maps one received event to the dispatcher's action: every click is
/// handed on exactly once, and only the sentinel stops the loop.
pub fn dispatch_decision(ev: &TrayEvent) -> (r: DispatchStep)
    ensures
        r == decision_of(*ev),
{
    match ev {
        TrayEvent::Click(id) => DispatchStep::Invoke(*id),
        TrayEvent::Shutdown => DispatchStep::Stop,
    }
}

/// The identifiers the dispatcher hands to the registry for a queue of
/// events, in order: one per click before the first sentinel, and none at
/// all from the sentinel on.
pub open spec fn dispatched_ids(events: Seq<TrayEvent>) -> Seq<u32>
    decreases events.len(),
{
    if events.len() == 0 {
        Seq::empty()
    } else {
        match events[0] {
            TrayEvent::Shutdown => Seq::empty(),
            TrayEvent::Click(id) => seq![id] + dispatched_ids(events.drop_first()),
        }
    }
}

/// Drains a queue of events the way the dispatcher thread does, returning
/// the identifiers it would invoke, in order.
pub fn drain_events(events: &Vec<TrayEvent>) -> (r: Vec<u32>)
    ensures
        r@ == dispatched_ids(events@),
{
    let n: usize = events.len();
    let mut out: Vec<u32> = Vec::new();
    let mut i: usize = 0;
    proof {
        assert(events@.skip(0) =~= events@);
    }
    loop
        invariant_except_break
            i <= n,
            n == events@.len(),
            dispatched_ids(events@) == out@ + dispatched_ids(events@.skip(i as int)),
        ensures
            out@ == dispatched_ids(events@),
        decreases n - i,
    {
        if i >= n {
            proof {
                assert(events@.skip(i as int) =~= Seq::<TrayEvent>::empty());
                assert(dispatched_ids(events@.skip(i as int)) =~= Seq::<u32>::empty());
                assert(out@ + dispatched_ids(events@.skip(i as int)) =~= out@);
            }
            break ;
        }
        proof {
            assert(events@.skip(i as int)[0] == events@[i as int]);
            assert(events@.skip(i as int).drop_first() =~= events@.skip(i as int + 1));
        }
        match events[i] {
            TrayEvent::Shutdown => {
                proof {
                    assert(dispatched_ids(events@.skip(i as int)) =~= Seq::<u32>::empty());
                    assert(out@ + dispatched_ids(events@.skip(i as int)) =~= out@);
                }
                break ;
            },
            TrayEvent::Click(id) => {
                proof {
                    assert(dispatched_ids(events@.skip(i as int)) =~= seq![id] + dispatched_ids(
                        events@.skip(i as int + 1),
                    ));
                }
                out.push(id);
                proof {
                    assert(out@ + dispatched_ids(events@.skip(i as int + 1))
                        =~= dispatched_ids(events@));
                }
            },
        }
        i = i + 1;
    }
    out
}

/// Law: when a queue holds clicks only — no sentinel was enqueued — the
/// dispatcher performs exactly one invocation per click, in arrival
/// order. Together with the single dispatcher loop this is what keeps
/// callback runs serialized: one identifier is handed on at a time.
pub proof fn lemma_each_click_dispatched_once(events: Seq<TrayEvent>)
    requires
        forall|i: int| 0 <= i < events.len() ==> (#[trigger] events[i]) is Click,
    ensures
        dispatched_ids(events).len() == events.len(),
        forall|i: int|
            0 <= i < events.len() ==> #[trigger] dispatched_ids(events)[i] == events[i]->Click_0,
    decreases events.len(),
{
    if events.len() > 0 {
        let rest = events.drop_first();
        assert forall|i: int| 0 <= i < rest.len() implies (#[trigger] rest[i]) is Click by {
            assert(rest[i] == events[i + 1]);
        }
        lemma_each_click_dispatched_once(rest);
        let id0 = events[0]->Click_0;
        assert(dispatched_ids(events) =~= seq![id0] + dispatched_ids(rest));
        assert forall|i: int|
            0 <= i < events.len() implies #[trigger] dispatched_ids(events)[i]
            == events[i]->Click_0 by {
            if i > 0 {
                assert(dispatched_ids(events)[i] == dispatched_ids(rest)[i - 1]);
                assert(rest[i - 1] == events[i]);
            }
        }
    }
}

/// Law: nothing enqueued after the sentinel is ever dispatched. Whatever
/// follows the first sentinel in the queue, the dispatched identifiers
/// are those of the queue cut at that sentinel.
pub proof fn lemma_no_dispatch_after_shutdown(before: Seq<TrayEvent>, after: Seq<TrayEvent>)
    ensures
        dispatched_ids(before + seq![TrayEvent::Shutdown] + after) == dispatched_ids(
            before + seq![TrayEvent::Shutdown],
        ),
    decreases before.len(),
{
    let with_tail = before + seq![TrayEvent::Shutdown] + after;
    let cut = before + seq![TrayEvent::Shutdown];
    if before.len() == 0 {
        assert(with_tail[0] == TrayEvent::Shutdown);
        assert(cut[0] == TrayEvent::Shutdown);
        assert(dispatched_ids(with_tail) =~= Seq::<u32>::empty());
        assert(dispatched_ids(cut) =~= Seq::<u32>::empty());
    } else {
        assert(with_tail[0] == before[0]);
        assert(cut[0] == before[0]);
        match before[0] {
            TrayEvent::Shutdown => {
                assert(dispatched_ids(with_tail) =~= Seq::<u32>::empty());
                assert(dispatched_ids(cut) =~= Seq::<u32>::empty());
            },
            TrayEvent::Click(id) => {
                assert(with_tail.drop_first() =~= before.drop_first() + seq![TrayEvent::Shutdown]
                    + after);
                assert(cut.drop_first() =~= before.drop_first() + seq![TrayEvent::Shutdown]);
                lemma_no_dispatch_after_shutdown(before.drop_first(), after);
                assert(dispatched_ids(with_tail) =~= seq![id] + dispatched_ids(
                    with_tail.drop_first(),
                ));
                assert(dispatched_ids(cut) =~= seq![id] + dispatched_ids(cut.drop_first()));
            },
        }
    }
}

/// Appending the sentinel to a queue of clicks changes nothing about
/// what is dispatched: the sentinel itself invokes no callback.
proof fn lemma_sentinel_adds_no_dispatch(clicks: Seq<TrayEvent>)
    requires
        forall|i: int| 0 <= i < clicks.len() ==> (#[trigger] clicks[i]) is Click,
    ensures
        dispatched_ids(clicks + seq![TrayEvent::Shutdown]) == dispatched_ids(clicks),
    decreases clicks.len(),
{
    let cut = clicks + seq![TrayEvent::Shutdown];
    if clicks.len() == 0 {
        assert(cut[0] == TrayEvent::Shutdown);
        assert(dispatched_ids(cut) =~= Seq::<u32>::empty());
        assert(dispatched_ids(clicks) =~= Seq::<u32>::empty());
    } else {
        let rest = clicks.drop_first();
        assert forall|i: int| 0 <= i < rest.len() implies (#[trigger] rest[i]) is Click by {
            assert(rest[i] == clicks[i + 1]);
        }
        lemma_sentinel_adds_no_dispatch(rest);
        assert(cut[0] == clicks[0]);
        let id = clicks[0]->Click_0;
        assert(cut.drop_first() =~= rest + seq![TrayEvent::Shutdown]);
        assert(dispatched_ids(cut) =~= seq![id] + dispatched_ids(cut.drop_first()));
        assert(dispatched_ids(clicks) =~= seq![id] + dispatched_ids(rest));
    }
}

/// Law: the sentinel is the last event that matters. A queue of clicks,
/// then the sentinel, then anything at all dispatches exactly the clicks
/// enqueued before the sentinel, one invocation each, in arrival order;
/// no callback fires for anything enqueued after it.
pub proof fn lemma_sentinel_is_last(clicks: Seq<TrayEvent>, after: Seq<TrayEvent>)
    requires
        forall|i: int| 0 <= i < clicks.len() ==> (#[trigger] clicks[i]) is Click,
    ensures
        dispatched_ids(clicks + seq![TrayEvent::Shutdown] + after).len() == clicks.len(),
        forall|i: int|
            0 <= i < clicks.len() ==> #[trigger] dispatched_ids(
                clicks + seq![TrayEvent::Shutdown] + after,
            )[i] == clicks[i]->Click_0,
{
    lemma_no_dispatch_after_shutdown(clicks, after);
    lemma_sentinel_adds_no_dispatch(clicks);
    lemma_each_click_dispatched_once(clicks);
}

} // verus!
