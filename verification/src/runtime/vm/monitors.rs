//! Object monitors: `monitorenter`, `monitorexit`, `wait` and `notify`.
//!
//! Nothing here blocks. A call that has to wait says so and is made again once the monitor was released;
//! a wait is split into the part before it, the test that ends it and the part after it.

use vstd::prelude::*;

use super::exceptions::thrown;
use super::threads::{interrupt_cleared, interrupt_probed, own_thread, thread_pending};
use super::{free_monitor, JavaMonitor, Shared, State, VmThread};
use crate::runtime::slot::Reference;
use crate::runtime::string::held_up;
use crate::runtime::value::VmError;

verus! {

/// Whether a monitor could be had.
#[derive(Debug, Clone, Copy, PartialEq, Eq, Structural)]
pub enum MonitorStep {
    /// The monitor is held now.
    Entered,
    /// Another thread holds the monitor: wait for its release and try again.
    Blocked,
}

/// Which waiting threads a notification wakes.
#[derive(Debug, Clone, Copy, PartialEq, Eq, Structural)]
pub enum Wakeup {
    Nobody,
    One,
    All,
}

/// What a thread that waits has to remember.
#[derive(Debug, Clone, Copy, PartialEq, Eq, Structural)]
pub struct WaitTicket {
    pub object: Reference,
    pub owner: Reference,
    /// How many times the thread had entered the monitor.
    pub saved_count: u64,
    /// The notification count when the wait began.
    pub seq: u64,
    /// Milliseconds to wait; 0 is without end.
    pub millis: i64,
}

/// The monitor of an object.
pub open spec fn monitor_of(s: State, obj: Reference) -> JavaMonitor {
    if s.vm.monitors.contains_key(obj) {
        s.vm.monitors[obj]
    } else {
        free_monitor()
    }
}

/// State in which `m` is the monitor of `obj`.
pub open spec fn with_monitor(s: State, obj: Reference, m: JavaMonitor) -> State {
    State { vm: Shared { monitors: s.vm.monitors.insert(obj, m), ..s.vm }, ..s }
}

/// Whether a thread may take the monitor.
pub open spec fn available(m: JavaMonitor, me: Reference) -> bool {
    m.owner is None || m.owner == Some(me)
}

/// The monitor after `me` took it, first or once more.
pub open spec fn acquired(m: JavaMonitor, me: Reference) -> JavaMonitor {
    if m.owner == Some(me) {
        JavaMonitor { count: succ(m.count), ..m }
    } else {
        JavaMonitor { owner: Some(me), count: 1, ..m }
    }
}

/// The next number, 0 after the last.
pub open spec fn succ(n: u64) -> u64 {
    if n == u64::MAX {
        0
    } else {
        (n + 1) as u64
    }
}

/// The number before, the last before 0.
pub open spec fn pred(n: u64) -> u64 {
    if n == 0 {
        u64::MAX
    } else {
        (n - 1) as u64
    }
}

/// A thrown exception as the outcome of a step.
pub open spec fn failed<T>(s: State, class: Seq<char>) -> (State, Result<T, VmError>) {
    (thrown(s, class).0, Err(VmError::ThrownException(thrown(s, class).1)))
}

/// Entering a monitor.
pub open spec fn entered(s: State, obj: Reference) -> (State, Result<MonitorStep, VmError>) {
    if obj.0 is None {
        failed(s, "java/lang/NullPointerException"@)
    } else if thread_pending(s) is Some {
        held_up(s, thread_pending(s)->0)
    } else {
        let (t, me) = own_thread(s);
        let m = monitor_of(t, obj);
        if available(m, me) {
            (with_monitor(t, obj, acquired(m, me)), Ok(MonitorStep::Entered))
        } else {
            (with_monitor(t, obj, m), Ok(MonitorStep::Blocked))
        }
    }
}

/// The monitor after one exit.
pub open spec fn released(m: JavaMonitor) -> JavaMonitor {
    if m.count == 1 {
        JavaMonitor { owner: None, count: 0, ..m }
    } else {
        JavaMonitor { count: pred(m.count), ..m }
    }
}

/// Leaving a monitor; the outcome says whether it is free now.
pub open spec fn exited(s: State, obj: Reference) -> (State, Result<bool, VmError>) {
    if obj.0 is None {
        failed(s, "java/lang/NullPointerException"@)
    } else if thread_pending(s) is Some {
        held_up(s, thread_pending(s)->0)
    } else {
        let (t, me) = own_thread(s);
        let m = monitor_of(t, obj);
        if m.owner != Some(me) || m.count == 0 {
            failed(t, "java/lang/IllegalMonitorStateException"@)
        } else {
            (with_monitor(t, obj, released(m)), Ok(m.count == 1))
        }
    }
}

/// Whether the thread holds a monitor.
pub open spec fn lock_held(s: State, obj: Reference) -> (State, Result<bool, VmError>) {
    if obj.0 is None {
        failed(s, "java/lang/NullPointerException"@)
    } else if thread_pending(s) is Some {
        held_up(s, thread_pending(s)->0)
    } else {
        let (t, me) = own_thread(s);
        let m = monitor_of(t, obj);
        (t, Ok(m.owner == Some(me) && m.count > 0))
    }
}

/// State in which `thread` waits on `obj`.
pub open spec fn with_wait_target(s: State, thread: Reference, obj: Reference) -> State {
    State { vm: Shared { wait_targets: s.vm.wait_targets.insert(thread, obj), ..s.vm }, ..s }
}

/// State in which `thread` waits on nothing.
pub open spec fn without_wait_target(s: State, thread: Reference) -> State {
    State { vm: Shared { wait_targets: s.vm.wait_targets.remove(thread), ..s.vm }, ..s }
}

/// Beginning to wait on an object.
pub open spec fn wait_begun(s: State, obj: Reference, millis: i64) -> (State, Result<WaitTicket, VmError>) {
    if obj.0 is None {
        failed(s, "java/lang/NullPointerException"@)
    } else if millis < 0 {
        failed(s, "java/lang/IllegalArgumentException"@)
    } else if thread_pending(s) is Some {
        held_up(s, thread_pending(s)->0)
    } else {
        let (s1, me) = own_thread(s);
        let (s2, interrupted) = interrupt_probed(s1, me);
        if interrupted {
            failed(interrupt_cleared(s2, me), "java/lang/InterruptedException"@)
        } else if !s2.vm.monitors.contains_key(obj) || s2.vm.monitors[obj].owner != Some(me) {
            failed(s2, "java/lang/IllegalMonitorStateException"@)
        } else {
            let m = s2.vm.monitors[obj];
            let s3 = with_monitor(
                s2,
                obj,
                JavaMonitor { owner: None, count: 0, waiters: succ(m.waiters), wake_seq: m.wake_seq },
            );
            (
                with_wait_target(s3, me, obj),
                Ok(WaitTicket { object: obj, owner: me, saved_count: m.count, seq: m.wake_seq, millis }),
            )
        }
    }
}

/// Whether a wait goes on: no notification since it began and no interrupt.
pub open spec fn wait_goes_on(s: State, t: WaitTicket) -> bool {
    monitor_of(s, t.object).wake_seq == t.seq && !(s.vm.interrupt_flags.contains_key(t.owner)
        && s.vm.interrupt_flags[t.owner])
}

/// The end of a wait, by notification, interrupt or time-out; the outcome says whether a notification
/// came.
pub open spec fn wait_left(s: State, t: WaitTicket) -> (State, bool) {
    let m = monitor_of(s, t.object);
    (
        with_monitor(without_wait_target(s, t.owner), t.object, JavaMonitor { waiters: pred(m.waiters), ..m }),
        m.wake_seq != t.seq,
    )
}

/// Taking the monitor back after a wait.
pub open spec fn wait_resumed(s: State, t: WaitTicket, notified: bool) -> (State, Result<MonitorStep, VmError>) {
    let m = monitor_of(s, t.object);
    if !available(m, t.owner) {
        (s, Ok(MonitorStep::Blocked))
    } else {
        let s1 = with_monitor(s, t.object, JavaMonitor { owner: Some(t.owner), count: t.saved_count, ..m });
        if !notified && s1.vm.interrupt_flags.contains_key(t.owner) && s1.vm.interrupt_flags[t.owner] {
            failed(interrupt_cleared(s1, t.owner), "java/lang/InterruptedException"@)
        } else {
            (s1, Ok(MonitorStep::Entered))
        }
    }
}

/// Notifying the threads that wait on an object.
pub open spec fn notified(s: State, obj: Reference, all: bool) -> (State, Result<Wakeup, VmError>) {
    if obj.0 is None {
        failed(s, "java/lang/NullPointerException"@)
    } else if thread_pending(s) is Some {
        held_up(s, thread_pending(s)->0)
    } else {
        let (t, me) = own_thread(s);
        if !t.vm.monitors.contains_key(obj) || t.vm.monitors[obj].owner != Some(me) {
            failed(t, "java/lang/IllegalMonitorStateException"@)
        } else {
            let m = t.vm.monitors[obj];
            if m.waiters > 0 {
                (
                    with_monitor(t, obj, JavaMonitor { wake_seq: succ(m.wake_seq), ..m }),
                    Ok(
                        if all {
                            Wakeup::All
                        } else {
                            Wakeup::One
                        },
                    ),
                )
            } else {
                (t, Ok(Wakeup::Nobody))
            }
        }
    }
}

/// Takes a monitor that is free or held by `owner`.
pub fn acquire_or_reenter(m: &mut JavaMonitor, owner: Reference)
    ensures
        *final(m) == acquired(*old(m), owner),
{
    if m.owner == Some(owner) {
        m.count = next(m.count);
    } else {
        m.owner = Some(owner);
        m.count = 1;
    }
}

fn next(n: u64) -> (r: u64)
    ensures
        r == succ(n),
{
    if n == u64::MAX {
        0
    } else {
        n + 1
    }
}

fn previous(n: u64) -> (r: u64)
    ensures
        r == pred(n),
{
    if n == 0 {
        u64::MAX
    } else {
        n - 1
    }
}

impl VmThread {
    fn monitor(&self, obj: Reference) -> (r: Option<JavaMonitor>)
        ensures
            r == self@.vm.monitors.get(obj),
    {
        match self.runtime.monitors.get(&obj) {
            Some(m) => Some(*m),
            None => None,
        }
    }

    fn set_monitor(&mut self, obj: Reference, m: JavaMonitor)
        ensures
            final(self)@ == with_monitor(old(self)@, obj, m),
    {
        self.runtime.monitors.insert(obj, m);
    }

    fn interrupted_now(&self, thread: Reference) -> (r: bool)
        ensures
            r == (self@.vm.interrupt_flags.contains_key(thread) && self@.vm.interrupt_flags[thread]),
    {
        match self.runtime.threads.interrupt_flags.get(&thread) {
            Some(b) => *b,
            None => false,
        }
    }

    /// `monitorenter`: takes the monitor of `obj`, once more if the thread holds it.
    pub fn monitor_enter(&mut self, obj: Reference) -> (r: Result<MonitorStep, VmError>)
        ensures
            (final(self)@, r) == entered(old(self)@, obj),
    {
        if obj.is_null() {
            return Err(self.throw_exception("java/lang/NullPointerException"));
        }
        let owner: Reference = match self.main_thread() {
            Ok(r) => r,
            Err(e) => {
                return Err(e);
            },
        };
        let mut m: JavaMonitor = match self.monitor(obj) {
            Some(m) => m,
            None => JavaMonitor::new(),
        };
        if m.owner.is_some() && m.owner != Some(owner) {
            self.set_monitor(obj, m);
            return Ok(MonitorStep::Blocked);
        }
        acquire_or_reenter(&mut m, owner);
        self.set_monitor(obj, m);
        Ok(MonitorStep::Entered)
    }

    /// `monitorexit`: undoes one `monitorenter`. Says whether the monitor is free now, so that one
    /// thread that waits for it can try again.
    pub fn monitor_exit(&mut self, obj: Reference) -> (r: Result<bool, VmError>)
        ensures
            (final(self)@, r) == exited(old(self)@, obj),
    {
        if obj.is_null() {
            return Err(self.throw_exception("java/lang/NullPointerException"));
        }
        let owner: Reference = match self.main_thread() {
            Ok(r) => r,
            Err(e) => {
                return Err(e);
            },
        };
        let mut m: JavaMonitor = match self.monitor(obj) {
            Some(m) => m,
            None => {
                return Err(self.throw_exception("java/lang/IllegalMonitorStateException"));
            },
        };
        if m.owner != Some(owner) || m.count == 0 {
            return Err(self.throw_exception("java/lang/IllegalMonitorStateException"));
        }
        m.count = m.count - 1;
        let free: bool = m.count == 0;
        if free {
            m.owner = None;
        }
        self.set_monitor(obj, m);
        Ok(free)
    }

    /// `Thread.holdsLock`: whether the thread holds the monitor of `obj`.
    pub fn holds_lock(&mut self, obj: Reference) -> (r: Result<bool, VmError>)
        ensures
            (final(self)@, r) == lock_held(old(self)@, obj),
    {
        if obj.is_null() {
            return Err(self.throw_exception("java/lang/NullPointerException"));
        }
        let owner: Reference = match self.main_thread() {
            Ok(r) => r,
            Err(e) => {
                return Err(e);
            },
        };
        match self.monitor(obj) {
            Some(m) => Ok(m.owner == Some(owner) && m.count > 0),
            None => Ok(false),
        }
    }

    /// `Object.wait`, first part: checks, then gives the monitor up and counts the thread among the
    /// waiters. One thread that waits for the monitor can try again now.
    pub fn object_wait(&mut self, obj: Reference, millis: i64) -> (r: Result<WaitTicket, VmError>)
        ensures
            (final(self)@, r) == wait_begun(old(self)@, obj, millis),
    {
        if obj.is_null() {
            return Err(self.throw_exception("java/lang/NullPointerException"));
        }
        if millis < 0 {
            return Err(self.throw_exception("java/lang/IllegalArgumentException"));
        }
        let owner: Reference = match self.main_thread() {
            Ok(r) => r,
            Err(e) => {
                return Err(e);
            },
        };
        if self.interrupt_flag(owner) {
            self.clear_interrupt_status(owner);
            return Err(self.throw_exception("java/lang/InterruptedException"));
        }
        let m: JavaMonitor = match self.monitor(obj) {
            Some(m) => m,
            None => {
                return Err(self.throw_exception("java/lang/IllegalMonitorStateException"));
            },
        };
        if m.owner != Some(owner) {
            return Err(self.throw_exception("java/lang/IllegalMonitorStateException"));
        }
        self.set_monitor(
            obj,
            JavaMonitor { owner: None, count: 0, waiters: next(m.waiters), wake_seq: m.wake_seq },
        );
        self.runtime.threads.wait_targets.insert(owner, obj);
        Ok(WaitTicket { object: obj, owner, saved_count: m.count, seq: m.wake_seq, millis })
    }

    /// `Object.wait`, the test that ends it: whether the thread has to go on waiting. Besides, a wait with
    /// a time limit ends when the time is up.
    pub fn object_wait_pending(&self, ticket: WaitTicket) -> (r: bool)
        ensures
            r == wait_goes_on(self@, ticket),
    {
        let m: JavaMonitor = match self.monitor(ticket.object) {
            Some(m) => m,
            None => JavaMonitor::new(),
        };
        m.wake_seq == ticket.seq && !self.interrupted_now(ticket.owner)
    }

    /// `Object.wait`, the end of waiting: the thread is no longer among the waiters. Says whether a
    /// notification came.
    pub fn object_wait_leave(&mut self, ticket: WaitTicket) -> (r: bool)
        ensures
            (final(self)@, r) == wait_left(old(self)@, ticket),
    {
        self.runtime.threads.wait_targets.remove(&ticket.owner);
        let mut m: JavaMonitor = match self.monitor(ticket.object) {
            Some(m) => m,
            None => JavaMonitor::new(),
        };
        m.waiters = previous(m.waiters);
        self.set_monitor(ticket.object, m);
        m.wake_seq != ticket.seq
    }

    /// `Object.wait`, last part: takes the monitor back as often as it was held. A thread that was
    /// interrupted and not notified gets an `InterruptedException`.
    pub fn object_wait_resume(&mut self, ticket: WaitTicket, notified: bool) -> (r: Result<MonitorStep, VmError>)
        ensures
            (final(self)@, r) == wait_resumed(old(self)@, ticket, notified),
    {
        let mut m: JavaMonitor = match self.monitor(ticket.object) {
            Some(m) => m,
            None => JavaMonitor::new(),
        };
        if m.owner.is_some() && m.owner != Some(ticket.owner) {
            return Ok(MonitorStep::Blocked);
        }
        m.owner = Some(ticket.owner);
        m.count = ticket.saved_count;
        self.set_monitor(ticket.object, m);
        if !notified && self.interrupted_now(ticket.owner) {
            self.clear_interrupt_status(ticket.owner);
            return Err(self.throw_exception("java/lang/InterruptedException"));
        }
        Ok(MonitorStep::Entered)
    }

    /// `Object.notify`.
    pub fn object_notify(&mut self, obj: Reference) -> (r: Result<Wakeup, VmError>)
        ensures
            (final(self)@, r) == notified(old(self)@, obj, false),
    {
        self.object_notify_common(obj, false)
    }

    /// `Object.notifyAll`.
    pub fn object_notify_all(&mut self, obj: Reference) -> (r: Result<Wakeup, VmError>)
        ensures
            (final(self)@, r) == notified(old(self)@, obj, true),
    {
        self.object_notify_common(obj, true)
    }

    fn object_notify_common(&mut self, obj: Reference, all: bool) -> (r: Result<Wakeup, VmError>)
        ensures
            (final(self)@, r) == notified(old(self)@, obj, all),
    {
        if obj.is_null() {
            return Err(self.throw_exception("java/lang/NullPointerException"));
        }
        let owner: Reference = match self.main_thread() {
            Ok(r) => r,
            Err(e) => {
                return Err(e);
            },
        };
        let mut m: JavaMonitor = match self.monitor(obj) {
            Some(m) => m,
            None => {
                return Err(self.throw_exception("java/lang/IllegalMonitorStateException"));
            },
        };
        if m.owner != Some(owner) {
            return Err(self.throw_exception("java/lang/IllegalMonitorStateException"));
        }
        if m.waiters > 0 {
            m.wake_seq = next(m.wake_seq);
            self.set_monitor(obj, m);
            Ok(
                if all {
                    Wakeup::All
                } else {
                    Wakeup::One
                },
            )
        } else {
            Ok(Wakeup::Nobody)
        }
    }
}

/// As many exits as enters give the monitor back as it was; the monitor is held in between.
pub proof fn law_exit_undoes_enter(m: JavaMonitor, me: Reference)
    requires
        available(m, me),
        m.owner is None ==> m.count == 0,
        m.owner is Some ==> 0 < m.count < u64::MAX,
    ensures
        acquired(m, me).owner == Some(me),
        acquired(m, me).count == m.count + 1,
        released(acquired(m, me)) == m,
{
}

/// While a thread holds a monitor, no other thread gets it, and only its owner can leave it, wait on it or
/// notify on it. A thread that was interrupted hears of that first when it tries to wait.
pub proof fn law_monitor_excludes_others(s: State, obj: Reference, holder: Reference, millis: i64)
    requires
        obj.0 is Some,
        thread_pending(s) is None,
        monitor_of(own_thread(s).0, obj).owner == Some(holder),
        own_thread(s).1 != holder,
    ensures
        entered(s, obj).1 == Ok::<MonitorStep, VmError>(MonitorStep::Blocked),
        monitor_of(entered(s, obj).0, obj) == monitor_of(own_thread(s).0, obj),
        exited(s, obj) == failed::<bool>(own_thread(s).0, "java/lang/IllegalMonitorStateException"@),
        notified(s, obj, true) == failed::<Wakeup>(own_thread(s).0, "java/lang/IllegalMonitorStateException"@),
        lock_held(s, obj).1 == Ok::<bool, VmError>(false),
        ({
            let (t, me) = own_thread(s);
            let (u, interrupt) = interrupt_probed(t, me);
            millis >= 0 ==> wait_begun(s, obj, millis) == if interrupt {
                failed::<WaitTicket>(interrupt_cleared(u, me), "java/lang/InterruptedException"@)
            } else {
                failed::<WaitTicket>(u, "java/lang/IllegalMonitorStateException"@)
            }
        }),
{
}

/// A wait gives the monitor up at once, and the thread that resumes holds it as often as before: after a
/// notification, after a time-out, and with an `InterruptedException` after an interrupt, which is cleared then.
pub proof fn law_wait_gives_back_the_monitor(s: State, obj: Reference, millis: i64, later: State, came: bool)
    requires
        wait_begun(s, obj, millis).1 is Ok,
        available(monitor_of(later, obj), wait_begun(s, obj, millis).1->Ok_0.owner),
    ensures
        monitor_of(wait_begun(s, obj, millis).0, obj).owner is None,
        monitor_of(wait_begun(s, obj, millis).0, obj).count == 0,
        ({
            let ticket = wait_begun(s, obj, millis).1->Ok_0;
            let back = wait_resumed(later, ticket, came);
            let interrupt = later.vm.interrupt_flags.contains_key(ticket.owner)
                && later.vm.interrupt_flags[ticket.owner];
            &&& monitor_of(back.0, obj).owner == Some(ticket.owner)
            &&& monitor_of(back.0, obj).count == ticket.saved_count
            &&& came || !interrupt ==> back.1 == Ok::<MonitorStep, VmError>(MonitorStep::Entered)
            &&& !came && interrupt ==> back == failed::<MonitorStep>(
                interrupt_cleared(
                    with_monitor(
                        later,
                        obj,
                        JavaMonitor {
                            owner: Some(ticket.owner),
                            count: ticket.saved_count,
                            ..monitor_of(later, obj)
                        },
                    ),
                    ticket.owner,
                ),
                "java/lang/InterruptedException"@,
            )
            &&& !came && interrupt ==> !back.0.vm.interrupt_flags[ticket.owner]
        }),
{
}

/// A notification without waiters changes nothing; one with waiters ends every wait that began before it,
/// unless it is the one after which the count begins again.
pub proof fn law_notification_ends_waits(s: State, obj: Reference, all: bool, ticket: WaitTicket)
    requires
        notified(s, obj, all).1 is Ok,
        ticket.object == obj,
        ticket.seq == monitor_of(own_thread(s).0, obj).wake_seq,
    ensures
        monitor_of(own_thread(s).0, obj).waiters == 0 ==> notified(s, obj, all) == (
            own_thread(s).0,
            Ok::<Wakeup, VmError>(Wakeup::Nobody),
        ),
        monitor_of(own_thread(s).0, obj).waiters > 0 ==> !wait_goes_on(notified(s, obj, all).0, ticket),
        monitor_of(own_thread(s).0, obj).waiters > 0 ==> wait_left(notified(s, obj, all).0, ticket).1,
{
}

/// A thread that entered a monitor holds it; after as many exits as enters it does not, and one exit fewer is
/// not enough.
pub proof fn law_reentry(s: State, obj: Reference)
    requires
        obj.0 is Some,
        thread_pending(s) is None,
        monitor_of(own_thread(s).0, obj).owner is None,
        monitor_of(own_thread(s).0, obj).count == 0,
    ensures
        ({
            let once = entered(s, obj).0;
            let twice = entered(once, obj).0;
            let left = exited(twice, obj).0;
            let free = exited(left, obj).0;
            &&& entered(s, obj).1 == Ok::<MonitorStep, VmError>(MonitorStep::Entered)
            &&& entered(once, obj).1 == Ok::<MonitorStep, VmError>(MonitorStep::Entered)
            &&& lock_held(twice, obj).1 == Ok::<bool, VmError>(true)
            &&& exited(twice, obj).1 == Ok::<bool, VmError>(false)
            &&& lock_held(left, obj).1 == Ok::<bool, VmError>(true)
            &&& exited(left, obj).1 == Ok::<bool, VmError>(true)
            &&& lock_held(free, obj).1 == Ok::<bool, VmError>(false)
        }),
{
    let (t, me) = own_thread(s);
    super::threads::law_thread_identity_is_stable(s);
    let once = entered(s, obj).0;
    identity_under_locks(t, obj, acquired(monitor_of(t, obj), me));
    let twice = entered(once, obj).0;
    identity_under_locks(once, obj, acquired(monitor_of(once, obj), me));
    let left = exited(twice, obj).0;
    identity_under_locks(twice, obj, released(monitor_of(twice, obj)));
    let free = exited(left, obj).0;
    identity_under_locks(left, obj, released(monitor_of(left, obj)));
}

/// Taking and leaving monitors does not touch the identity of a thread.
proof fn identity_under_locks(s: State, obj: Reference, m: JavaMonitor)
    requires
        own_thread(s).0 == s,
    ensures
        own_thread(with_monitor(s, obj, m)) == (with_monitor(s, obj, m), own_thread(s).1),
        thread_pending(with_monitor(s, obj, m)) == thread_pending(s),
{
    let t = with_monitor(s, obj, m);
    if s.thread.thread_ref is None {
        let (a, r) = s.alloc_fresh("java/lang/Thread"@);
        let (b, q) = t.alloc_fresh("java/lang/Thread"@);
        assert(r == q);
        if r.0 is Some {
            assert(own_thread(s).0.thread.thread_ref is Some);
        }
        assert(b.vm.heap == a.vm.heap);
    }
}

} // verus!
