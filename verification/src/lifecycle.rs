use vstd::prelude::*;

verus! {

/// Which background threads of one tray handle are still owned and
/// joinable. Both are spawned at construction; teardown consumes them, so
/// a later teardown finds nothing left to do.
pub struct ThreadLifecycle {
    /// The native message-loop thread has not been joined yet.
    pub native_loop_held: bool,
    /// The dispatcher thread has not been joined yet.
    pub dispatcher_held: bool,
}

/// The teardown work one `quit` call owes, in this fixed order: first
/// request destruction of the native window and join the native loop,
/// only then send the sentinel and join the dispatcher. Sending the
/// sentinel after the native join is what makes the sentinel the last
/// event the dispatcher can receive.
pub struct QuitPlan {
    /// Post the destroy request and join the native-loop thread.
    pub join_native_loop: bool,
    /// Send the shutdown sentinel, then join the dispatcher thread.
    pub send_sentinel_and_join_dispatcher: bool,
}

/// The transition `take_teardown` makes: both threads are consumed, and
/// each teardown step is owed exactly when its thread was still held.
pub open spec fn quit_transition(
    pre: ThreadLifecycle,
    post: ThreadLifecycle,
    plan: QuitPlan,
) -> bool {
    &&& !post.native_loop_held
    &&& !post.dispatcher_held
    &&& plan.join_native_loop == pre.native_loop_held
    &&& plan.send_sentinel_and_join_dispatcher == pre.dispatcher_held
}

impl ThreadLifecycle {
    /// The state right after construction: both threads run and are owned.
    pub fn new() -> (r: Self)
        ensures
            r.native_loop_held,
            r.dispatcher_held,
    {
        ThreadLifecycle { native_loop_held: true, dispatcher_held: true }
    }

    /// Consumes whatever is left to tear down. Joins and the sentinel
    /// send are owed only for threads still held, so running the returned
    /// plan can never join a thread twice nor send the sentinel twice.
    pub fn take_teardown(&mut self) -> (plan: QuitPlan)
        ensures
            quit_transition(*old(self), *final(self), plan),
    {
        let plan = QuitPlan {
            join_native_loop: self.native_loop_held,
            send_sentinel_and_join_dispatcher: self.dispatcher_held,
        };
        self.native_loop_held = false;
        self.dispatcher_held = false;
        plan
    }
}

/// Law: a second teardown is a no-op. Whatever the first call found, the
/// plan of the one after it owes no join and no sentinel send.
pub proof fn lemma_second_quit_is_noop(
    start: ThreadLifecycle,
    mid: ThreadLifecycle,
    first_plan: QuitPlan,
    end: ThreadLifecycle,
    second_plan: QuitPlan,
)
    requires
        quit_transition(start, mid, first_plan),
        quit_transition(mid, end, second_plan),
    ensures
        !second_plan.join_native_loop,
        !second_plan.send_sentinel_and_join_dispatcher,
{
}

} // verus!
