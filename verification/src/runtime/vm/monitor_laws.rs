//! What a thread finds when it enters, leaves, waits on and notifies on a monitor.

use vstd::prelude::*;

use super::exceptions::thrown;
use super::monitors::{
    entered, exited, lock_held, notified, wait_begun, wait_goes_on, wait_left, wait_resumed, MonitorStep, WaitTicket,
    Wakeup,
};
use super::threads::{interrupted, own_thread, thread_pending};
use super::{JavaMonitor, State};
use crate::runtime::native::java_lang::{outcome, JavaLang};
use crate::runtime::native::step::Step;
use crate::runtime::slot::Reference;
use crate::runtime::value::{Value, VmError};

verus! {

/// Whether the outcome is that an exception of `class` was thrown in `s`.
pub open spec fn raised<T>(s: State, class: Seq<char>, t: State, r: Result<T, VmError>) -> bool {
    (t, r) == (thrown(s, class).0, Err::<T, VmError>(VmError::ThrownException(thrown(s, class).1)))
}

/// Whether the monitors of `s` and `t` agree but for that of `obj`.
pub open spec fn others_alike(s: State, t: State, obj: Reference) -> bool {
    forall|x: Reference| x != obj ==> #[trigger] t.vm.monitors.get(x) == s.vm.monitors.get(x)
}

/// A monitor that nobody holds is had at once, and held once; the holder has it once more each time; everybody else is
/// kept out. Nothing but the monitor of the object changes, and waiting and notifications are no matter of entering.
pub proof fn law_entering(s: State, obj: Reference)
    requires
        obj.0 is Some,
        thread_pending(s) is None,
        own_thread(s).0.vm.monitors.get(obj) matches Some(m) ==> m.count < u64::MAX,
    ensures
        ({
            let (t, me) = own_thread(s);
            let (u, r) = entered(s, obj);
            &&& u.vm.heap == t.vm.heap && u.thread == t.thread && others_alike(t, u, obj)
            &&& t.vm.monitors.get(obj) is None ==> r == Ok::<MonitorStep, VmError>(MonitorStep::Entered)
                && u.vm.monitors.get(obj) == Some(JavaMonitor { owner: Some(me), count: 1, waiters: 0, wake_seq: 0 })
            &&& t.vm.monitors.get(obj) matches Some(m) ==> match m.owner {
                None => r == Ok::<MonitorStep, VmError>(MonitorStep::Entered) && u.vm.monitors.get(obj) == Some(
                    JavaMonitor { owner: Some(me), count: 1, waiters: m.waiters, wake_seq: m.wake_seq },
                ),
                Some(holder) => if holder == me {
                    r == Ok::<MonitorStep, VmError>(MonitorStep::Entered) && u.vm.monitors.get(obj) == Some(
                        JavaMonitor {
                            owner: Some(me),
                            count: (m.count + 1) as u64,
                            waiters: m.waiters,
                            wake_seq: m.wake_seq,
                        },
                    )
                } else {
                    r == Ok::<MonitorStep, VmError>(MonitorStep::Blocked) && u.vm.monitors.get(obj) == Some(m)
                },
            }
        }),
{
    let (t, me) = own_thread(s);
    let u = entered(s, obj).0;
    assert forall|x: Reference| x != obj implies #[trigger] u.vm.monitors.get(x) == t.vm.monitors.get(x) by {}
}

/// Only the holder can leave a monitor; one exit takes one entry back, and with the last the monitor is free, which is
/// what the answer says.
pub proof fn law_leaving(s: State, obj: Reference)
    requires
        obj.0 is Some,
        thread_pending(s) is None,
    ensures
        ({
            let (t, me) = own_thread(s);
            let (u, r) = exited(s, obj);
            let held = t.vm.monitors.get(obj) matches Some(m) && m.owner == Some(me) && m.count > 0;
            &&& !held ==> raised(t, "java/lang/IllegalMonitorStateException"@, u, r)
            &&& held ==> {
                let m = t.vm.monitors[obj];
                &&& u.vm.heap == t.vm.heap && u.thread == t.thread && others_alike(t, u, obj)
                &&& r == Ok::<bool, VmError>(m.count == 1)
                &&& u.vm.monitors.get(obj) == Some(
                    JavaMonitor {
                        owner: if m.count == 1 {
                            None
                        } else {
                            Some(me)
                        },
                        count: (m.count - 1) as u64,
                        waiters: m.waiters,
                        wake_seq: m.wake_seq,
                    },
                )
            }
            &&& lock_held(s, obj) == (t, Ok::<bool, VmError>(held))
        }),
{
    let (t, me) = own_thread(s);
    let u = exited(s, obj).0;
    assert forall|x: Reference|
        x != obj && t.vm.monitors.contains_key(obj) && t.vm.monitors[obj].owner == Some(me) && t.vm.monitors[obj].count
            > 0 implies #[trigger] u.vm.monitors.get(x) == t.vm.monitors.get(x) by {}
}

/// Where the caller holds the monitor and threads wait on the object, `notify` succeeds and reaches a single one of
/// them, `notifyAll` succeeds and reaches all; where nobody waits both succeed, reach nobody and change nothing; and a
/// caller that does not hold the monitor gets an `IllegalMonitorStateException`. The native methods hand the same out.
pub proof fn law_notifications_reach_waiters(s: State, obj: Reference, args: Seq<Value>)
    requires
        obj.0 is Some,
        thread_pending(s) is None,
    ensures
        ({
            let (t, me) = own_thread(s);
            let (one, r) = notified(s, obj, false);
            let (all, q) = notified(s, obj, true);
            let held = t.vm.monitors.get(obj) matches Some(m) && m.owner == Some(me);
            &&& !held ==> raised(t, "java/lang/IllegalMonitorStateException"@, one, r) && raised(
                t,
                "java/lang/IllegalMonitorStateException"@,
                all,
                q,
            )
            &&& held && t.vm.monitors[obj].waiters == 0 ==> one == t && all == t && r == Ok::<Wakeup, VmError>(
                Wakeup::Nobody,
            ) && q == Ok::<Wakeup, VmError>(Wakeup::Nobody)
            &&& held && t.vm.monitors[obj].waiters > 0 ==> {
                &&& r == Ok::<Wakeup, VmError>(Wakeup::One)
                &&& q == Ok::<Wakeup, VmError>(Wakeup::All)
                &&& one == all
                &&& one.vm.heap == t.vm.heap && one.thread == t.thread && others_alike(t, one, obj)
                &&& one.vm.monitors[obj].owner == Some(me)
                &&& one.vm.monitors[obj].count == t.vm.monitors[obj].count
                &&& one.vm.monitors[obj].waiters == t.vm.monitors[obj].waiters
                &&& one.vm.monitors[obj].wake_seq != t.vm.monitors[obj].wake_seq
                &&& outcome(s, JavaLang::Notify, Some(obj), args) == (one, Step::Wake(obj, Wakeup::One))
                &&& outcome(s, JavaLang::NotifyAll, Some(obj), args) == (all, Step::Wake(obj, Wakeup::All))
            }
        }),
{
    let (t, me) = own_thread(s);
    let u = notified(s, obj, true).0;
    assert forall|x: Reference|
        x != obj && t.vm.monitors.contains_key(obj) && t.vm.monitors[obj].owner
            == Some(me) implies #[trigger] u.vm.monitors.get(x) == t.vm.monitors.get(x) by {}
}

/// A thread that holds the monitor and was not interrupted begins to wait: the monitor is free, one waiter more is
/// counted, and the ticket remembers the thread, how often it held the monitor and for how long it waits. It goes on
/// waiting until a notification or an interrupt comes; leaving, it is no longer counted and no longer waits on the
/// object, and it says whether a notification came.
pub proof fn law_waiting(s: State, obj: Reference, millis: i64, later: State)
    requires
        obj.0 is Some,
        millis >= 0,
        thread_pending(s) is None,
        own_thread(s).0.vm.interrupt_flags.get(own_thread(s).1) != Some(true),
        own_thread(s).0.vm.monitors.get(obj) matches Some(m) && m.owner == Some(own_thread(s).1) && m.waiters < u64::MAX,
        later.vm.monitors.get(obj) matches Some(m) && m.waiters > 0,
    ensures
        ({
            let (t, me) = own_thread(s);
            let m = t.vm.monitors[obj];
            let (u, r) = wait_begun(s, obj, millis);
            let ticket = WaitTicket { object: obj, owner: me, saved_count: m.count, seq: m.wake_seq, millis };
            let (left, came) = wait_left(later, ticket);
            &&& r == Ok::<WaitTicket, VmError>(ticket)
            &&& u.vm.monitors.get(obj) == Some(
                JavaMonitor { owner: None, count: 0, waiters: (m.waiters + 1) as u64, wake_seq: m.wake_seq },
            )
            &&& u.vm.wait_targets.get(me) == Some(obj)
            &&& u.vm.heap == t.vm.heap && others_alike(t, u, obj)
            &&& wait_goes_on(u, ticket)
            &&& wait_goes_on(later, ticket) == (later.vm.monitors[obj].wake_seq == m.wake_seq
                && later.vm.interrupt_flags.get(me) != Some(true))
            &&& came == (later.vm.monitors[obj].wake_seq != m.wake_seq)
            &&& left.vm.monitors.get(obj) == Some(
                JavaMonitor { waiters: (later.vm.monitors[obj].waiters - 1) as u64, ..later.vm.monitors[obj] },
            )
            &&& left.vm.wait_targets.get(me) is None
            &&& others_alike(later, left, obj)
        }),
{
    let (t, me) = own_thread(s);
    let u = wait_begun(s, obj, millis).0;
    let m = t.vm.monitors[obj];
    let ticket = WaitTicket { object: obj, owner: me, saved_count: m.count, seq: m.wake_seq, millis };
    let left = wait_left(later, ticket).0;
    assert forall|x: Reference| x != obj implies #[trigger] u.vm.monitors.get(x) == t.vm.monitors.get(x) by {}
    assert forall|x: Reference| x != obj implies #[trigger] left.vm.monitors.get(x) == later.vm.monitors.get(x) by {}
}

/// The monitor of `null` cannot be had, left, waited on or asked for: a `NullPointerException`, before anything else.
/// A negative time is an `IllegalArgumentException`. A thread that was interrupted and would wait gets an
/// `InterruptedException`, and is not interrupted any more; one that does not hold the monitor gets an
/// `IllegalMonitorStateException`.
pub proof fn law_refused_requests(s: State, obj: Reference, millis: i64)
    ensures
        obj.0 is None ==> raised(s, "java/lang/NullPointerException"@, entered(s, obj).0, entered(s, obj).1),
        obj.0 is None ==> raised(s, "java/lang/NullPointerException"@, exited(s, obj).0, exited(s, obj).1),
        obj.0 is None ==> raised(s, "java/lang/NullPointerException"@, lock_held(s, obj).0, lock_held(s, obj).1),
        obj.0 is None ==> raised(s, "java/lang/NullPointerException"@, notified(s, obj, true).0, notified(s, obj, true).1),
        obj.0 is None ==> raised(s, "java/lang/NullPointerException"@, notified(s, obj, false).0, notified(s, obj, false).1),
        obj.0 is None ==> raised(
            s,
            "java/lang/NullPointerException"@,
            wait_begun(s, obj, millis).0,
            wait_begun(s, obj, millis).1,
        ),
        obj.0 is Some && millis < 0 ==> raised(
            s,
            "java/lang/IllegalArgumentException"@,
            wait_begun(s, obj, millis).0,
            wait_begun(s, obj, millis).1,
        ),
        obj.0 is Some && millis >= 0 && thread_pending(s) is None ==> {
            let (t, me) = own_thread(s);
            let (u, r) = wait_begun(s, obj, millis);
            let raised_flag = t.vm.interrupt_flags.get(me) == Some(true);
            let held = t.vm.monitors.get(obj) matches Some(m) && m.owner == Some(me);
            &&& r is Ok == (!raised_flag && held)
            &&& raised_flag ==> u.vm.interrupt_flags.get(me) == Some(false) && exists|v: State| #[trigger]
                raised(v, "java/lang/InterruptedException"@, u, r)
            &&& !raised_flag && !held ==> exists|v: State| #[trigger]
                raised(v, "java/lang/IllegalMonitorStateException"@, u, r)
        },
{
    if obj.0 is Some && millis >= 0 && thread_pending(s) is None {
        let (t, me) = own_thread(s);
        let (u, r) = wait_begun(s, obj, millis);
        let (s2, flag) = super::threads::interrupt_probed(t, me);
        if flag {
            let v = super::threads::interrupt_cleared(s2, me);
            assert(raised(v, "java/lang/InterruptedException"@, u, r));
        } else {
            assert(!r.is_ok() ==> raised(s2, "java/lang/IllegalMonitorStateException"@, u, r));
        }
    }
}

/// A thread that comes back from waiting is kept out while another thread holds the monitor, and nothing changes then;
/// otherwise it holds the monitor as often as before it waited, whatever ended the wait.
pub proof fn law_coming_back(s: State, ticket: WaitTicket, came: bool)
    requires
        s.vm.monitors.get(ticket.object) is Some,
    ensures
        ({
            let m = s.vm.monitors[ticket.object];
            let (t, r) = wait_resumed(s, ticket, came);
            &&& m.owner is Some && m.owner != Some(ticket.owner) ==> t == s && r == Ok::<MonitorStep, VmError>(
                MonitorStep::Blocked,
            )
            &&& m.owner is None || m.owner == Some(ticket.owner) ==> {
                let interrupt = s.vm.interrupt_flags.get(ticket.owner) == Some(true);
                &&& t.vm.monitors.get(ticket.object) == Some(
                    JavaMonitor {
                        owner: Some(ticket.owner),
                        count: ticket.saved_count,
                        waiters: m.waiters,
                        wake_seq: m.wake_seq,
                    },
                )
                &&& came || !interrupt ==> r == Ok::<MonitorStep, VmError>(MonitorStep::Entered)
                &&& !came && interrupt ==> t.vm.interrupt_flags.get(ticket.owner) == Some(false) && exists|v: State|
                    #[trigger] raised(v, "java/lang/InterruptedException"@, t, r)
            }
        }),
{
    let m = s.vm.monitors[ticket.object];
    let (t, r) = wait_resumed(s, ticket, came);
    let s1 = super::monitors::with_monitor(
        s,
        ticket.object,
        JavaMonitor { owner: Some(ticket.owner), count: ticket.saved_count, ..m },
    );
    let v = super::threads::interrupt_cleared(s1, ticket.owner);
    assert(r is Err ==> raised(v, "java/lang/InterruptedException"@, t, r));
}

/// Interrupting a thread raises its flag and no other, changes nothing else, and names the object that the thread waits
/// on, if it waits, so that all who wait there look again.
pub proof fn law_interrupting(s: State, target: Reference, other: Reference)
    requires
        target.0 is Some,
        other != target,
    ensures
        ({
            let (t, r) = interrupted(s, target);
            &&& t.vm.interrupt_flags.get(target) == Some(true)
            &&& t.vm.interrupt_flags.get(other) == s.vm.interrupt_flags.get(other)
            &&& t.vm.monitors == s.vm.monitors && t.vm.heap == s.vm.heap && t.vm.wait_targets == s.vm.wait_targets
            &&& r == Ok::<Option<Reference>, VmError>(
                match s.vm.wait_targets.get(target) {
                    Some(lock) => if s.vm.monitors.contains_key(lock) {
                        Some(lock)
                    } else {
                        None
                    },
                    None => None,
                },
            )
            &&& r matches Ok(Some(lock)) ==> outcome(s, JavaLang::Interrupt, Some(target), Seq::empty()) == (
                t,
                Step::Wake(lock, Wakeup::All),
            )
            &&& r == Ok::<Option<Reference>, VmError>(None) ==> outcome(
                s,
                JavaLang::Interrupt,
                Some(target),
                Seq::empty(),
            ) == (t, Step::Done(Ok(Value::Void)))
        }),
{
}

} // verus!
