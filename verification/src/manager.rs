//! The connection manager: a reference-counted lifecycle for the one
//! process-wide driver connection, and the per-call outcome logic of the
//! event retrieval operations.
//!
//! The driver itself is an outside process reached through unsafe foreign
//! calls, so its primitives cannot run here. Every transition instead
//! takes the raw outcome of the driver phase as a plain value and is
//! verified for each value it can carry; the caller performs the foreign
//! calls under its lock and hands the results in. The driver's event
//! queue is one shared stream: concurrent retrievals race for its
//! entries, so only connection lifetime, not delivery fairness, is
//! multiplexed here.

use vstd::prelude::*;

use crate::decode::decode;
use crate::decode::spec_decode;
use crate::decode::RawEvent;
use crate::event::Event;

verus! {

/// The descriptor query's sentinel: -1 means the driver has no valid
/// descriptor to report. The open and close primitives signal failure
/// differently, by any non-zero return.
pub const SPNAV_NO_FD: i32 = -1;

/// Why an acquisition returned no Connection.
#[derive(Debug, Clone, Copy, PartialEq, Eq, Structural)]
pub enum AcquireError {
    /// The driver's open was invoked and failed.
    ConnectFailed,
    /// The driver reported no valid descriptor.
    DescriptorUnavailable,
}

/// Why a blocking wait returned no event.
#[derive(Debug, Clone, Copy, PartialEq, Eq, Structural)]
pub enum WaitError {
    /// The driver's wait terminated abnormally (descriptor closed or error).
    WaitFailed,
    /// An event arrived but its discriminant names no known shape.
    UnrecognizedEvent,
}

/// The process-wide reference count of live Connections. The count is
/// the whole state: the driver connection is open exactly when it is
/// positive, provided every transition's driver phase is carried out as
/// the transition directs (open on `needs_open`, close on `release`
/// returning true).
pub struct Manager {
    count: usize,
}

impl View for Manager {
    type V = nat;

    closed spec fn view(&self) -> nat {
        self.count as nat
    }
}

/// Whether an acquisition starting from `count` live Connections must
/// invoke the driver's open: exactly when none is live yet.
pub open spec fn spec_acquire_opens(count: nat) -> bool {
    count == 0
}

/// The count after one acquisition whose driver phase succeeded.
pub open spec fn spec_acquire(count: nat) -> nat {
    count + 1
}

/// The count after one release: decremented, clamped at zero.
pub open spec fn spec_release(count: nat) -> nat {
    if count == 0 {
        0
    } else {
        (count - 1) as nat
    }
}

/// Whether one release starting from `count` live Connections must
/// invoke the driver's close: exactly on the last release.
pub open spec fn spec_release_closes(count: nat) -> bool {
    count == 1
}

impl Manager {
    /// A fresh manager: no live Connections, driver closed.
    pub fn new() -> (m: Manager)
        ensures
            m@ == 0,
    {
        Manager { count: 0 }
    }

    /// How many Connections are live.
    pub fn count(&self) -> (n: usize)
        ensures
            n == self@,
    {
        self.count
    }

    /// Whether the next acquisition must invoke the driver's open. False
    /// whenever a Connection is already live: the one driver connection
    /// is never opened twice.
    pub fn needs_open(&self) -> (b: bool)
        ensures
            b == spec_acquire_opens(self@),
    {
        self.count == 0
    }

    /// The release transition: decrement the count, clamped at zero, and
    /// report whether the driver's close must now be invoked — exactly
    /// when the last live Connection goes away, so the count reaching
    /// zero and the close are never separated, whatever the close then
    /// reports. Releasing with nothing live changes nothing and asks for
    /// no close.
    pub fn release(&mut self) -> (close_now: bool)
        ensures
            final(self)@ == spec_release(old(self)@),
            close_now == spec_release_closes(old(self)@),
    {
        if self.count == 0 {
            false
        } else if self.count == 1 {
            self.count = 0;
            true
        } else {
            self.count = self.count - 1;
            false
        }
    }
}

/// Map the driver's close return to the operation's outcome: zero is a
/// clean close, any non-zero return a failure. A close failure is fatal
/// for the release path — it has already brought the count to zero, and
/// no caller is positioned to retry a lifetime-end operation.
pub fn close_result(rc: i32) -> (r: Result<(), ()>)
    ensures
        r == if rc == 0 {
            Ok::<(), ()>(())
        } else {
            Err::<(), ()>(())
        },
{
    if rc == 0 {
        Ok(())
    } else {
        Err(())
    }
}

/// One logical client handle to the shared driver connection, wrapping
/// the descriptor it observed at acquisition. Only the manager's acquire
/// transition constructs one.
#[derive(Debug, Clone, PartialEq, Eq, Structural)]
pub struct Connection {
    pub fd: i32,
}

impl Connection {
    /// The acquire transition. `open_rc` is the raw return of the
    /// driver's open, consulted only when no Connection was live (the
    /// caller invokes open exactly when `needs_open` says so, and hands
    /// 0 otherwise); `fd` is the raw return of the descriptor query. A
    /// failed open — any non-zero return — leaves the count at zero and
    /// reports `ConnectFailed`; otherwise the count is incremented, and
    /// the record of a missing descriptor is `DescriptorUnavailable`
    /// with no Connection returned.
    pub fn new(mgr: &mut Manager, open_rc: i32, fd: i32) -> (r: Result<Connection, AcquireError>)
        requires
            old(mgr)@ < usize::MAX,
        ensures
            spec_acquire_opens(old(mgr)@) && open_rc != 0 ==> {
                &&& r == Err::<Connection, AcquireError>(AcquireError::ConnectFailed)
                &&& final(mgr)@ == old(mgr)@
            },
            !(spec_acquire_opens(old(mgr)@) && open_rc != 0) ==> {
                &&& final(mgr)@ == spec_acquire(old(mgr)@)
                &&& (fd == SPNAV_NO_FD ==> r == Err::<Connection, AcquireError>(
                    AcquireError::DescriptorUnavailable,
                ))
                &&& (fd != SPNAV_NO_FD ==> r == Ok::<Connection, AcquireError>(Connection { fd }))
            },
    {
        if mgr.count == 0 && open_rc != 0 {
            return Err(AcquireError::ConnectFailed);
        }
        mgr.count = mgr.count + 1;
        if fd == SPNAV_NO_FD {
            return Err(AcquireError::DescriptorUnavailable);
        }
        Ok(Connection { fd })
    }

    /// The non-blocking poll's outcome. `delivered` is the driver's raw
    /// poll return (zero: nothing queued) and `raw` the record buffer it
    /// filled. Nothing queued is nothing returned — never an error — and
    /// a record with an unrecognized discriminant is silently dropped.
    pub fn poll(&self, delivered: i32, raw: &RawEvent) -> (r: Option<Event>)
        ensures
            r == spec_poll(delivered, *raw),
    {
        if delivered == 0 {
            None
        } else {
            match decode(raw) {
                Ok(e) => Some(e),
                Err(_) => None,
            }
        }
    }

    /// The blocking wait's outcome. `delivered` is the driver's raw wait
    /// return (zero: the wait terminated abnormally) and `raw` the record
    /// buffer it filled. Exactly one outcome per call: an abnormal end is
    /// `WaitFailed`, a delivered record with an unrecognized discriminant
    /// is `UnrecognizedEvent` — never silently retried.
    pub fn wait(&self, delivered: i32, raw: &RawEvent) -> (r: Result<Event, WaitError>)
        ensures
            r == spec_wait(delivered, *raw),
    {
        if delivered == 0 {
            Err(WaitError::WaitFailed)
        } else {
            match decode(raw) {
                Ok(e) => Ok(e),
                Err(_) => Err(WaitError::UnrecognizedEvent),
            }
        }
    }
}

/// The count after `n` acquisitions whose driver phases all succeeded,
/// starting from `count` live Connections.
pub open spec fn count_after_acquires(count: nat, n: nat) -> nat
    decreases n,
{
    if n == 0 {
        count
    } else {
        count_after_acquires(spec_acquire(count), (n - 1) as nat)
    }
}

/// How many times those `n` acquisitions invoke the driver's open.
pub open spec fn opens_during_acquires(count: nat, n: nat) -> nat
    decreases n,
{
    if n == 0 {
        0
    } else {
        (if spec_acquire_opens(count) {
            1nat
        } else {
            0nat
        }) + opens_during_acquires(spec_acquire(count), (n - 1) as nat)
    }
}

/// The count after `n` releases starting from `count` live Connections.
pub open spec fn count_after_releases(count: nat, n: nat) -> nat
    decreases n,
{
    if n == 0 {
        count
    } else {
        count_after_releases(spec_release(count), (n - 1) as nat)
    }
}

/// How many times those `n` releases invoke the driver's close.
pub open spec fn closes_during_releases(count: nat, n: nat) -> nat
    decreases n,
{
    if n == 0 {
        0
    } else {
        (if spec_release_closes(count) {
            1nat
        } else {
            0nat
        }) + closes_during_releases(spec_release(count), (n - 1) as nat)
    }
}

/// While some Connection is live, further acquisitions never invoke the
/// driver's open again, however many there are.
pub proof fn lemma_no_reopen(count: nat, n: nat)
    requires
        count > 0,
    ensures
        opens_during_acquires(count, n) == 0,
    decreases n,
{
    if n > 0 {
        lemma_no_reopen(spec_acquire(count), (n - 1) as nat);
    }
}

/// With nothing live, releases change nothing and never invoke the
/// driver's close: the count is clamped at zero, and a close already
/// performed is never repeated.
pub proof fn lemma_release_exhausted(n: nat)
    ensures
        count_after_releases(0, n) == 0,
        closes_during_releases(0, n) == 0,
    decreases n,
{
    if n > 0 {
        lemma_release_exhausted((n - 1) as nat);
    }
}

/// Any run of releases, from any count, invokes the driver's close at
/// most once; and releasing at least as many times as there are live
/// Connections brings the count to zero, never below.
pub proof fn lemma_release_closes_at_most_once(count: nat, n: nat)
    ensures
        closes_during_releases(count, n) <= 1,
        n >= count ==> count_after_releases(count, n) == 0,
    decreases n,
{
    if n > 0 {
        if count == 0 {
            lemma_release_exhausted(n);
        } else if count == 1 {
            lemma_release_exhausted((n - 1) as nat);
        } else {
            lemma_release_closes_at_most_once(spec_release(count), (n - 1) as nat);
        }
    }
}

/// The paired lifecycle: `n` acquisitions from a fresh manager, each with
/// a successful driver phase, followed by `n` releases, in the order the
/// lock serializes them. The driver's open is invoked at most once and
/// its close at most once; each is invoked exactly when some Connection
/// was acquired at all; and the count returns to zero.
pub proof fn lemma_paired_lifecycle(n: nat)
    ensures
        count_after_acquires(0, n) == n,
        opens_during_acquires(0, n) <= 1,
        opens_during_acquires(0, n) == 1 <==> n > 0,
        count_after_releases(n, n) == 0,
        closes_during_releases(n, n) <= 1,
        closes_during_releases(n, n) == 1 <==> n > 0,
{
    lemma_count_after_acquires(0, n);
    if n > 0 {
        lemma_no_reopen(1, (n - 1) as nat);
    }
    lemma_release_closes_at_most_once(n, n);
    lemma_releases_close_exactly_once(n);
}

/// `n` acquisitions with successful driver phases raise the count by `n`.
pub proof fn lemma_count_after_acquires(count: nat, n: nat)
    ensures
        count_after_acquires(count, n) == count + n,
    decreases n,
{
    if n > 0 {
        lemma_count_after_acquires(spec_acquire(count), (n - 1) as nat);
    }
}

/// Releasing exactly the `n` live Connections invokes the driver's close
/// exactly once — on the last release — whenever any was live at all.
pub proof fn lemma_releases_close_exactly_once(n: nat)
    ensures
        closes_during_releases(n, n) == if n == 0 {
            0nat
        } else {
            1nat
        },
    decreases n,
{
    if n > 0 {
        lemma_releases_close_exactly_once((n - 1) as nat);
    }
}

/// What `poll` returns for every driver outcome.
pub open spec fn spec_poll(delivered: i32, raw: RawEvent) -> Option<Event> {
    if delivered == 0 {
        None
    } else {
        match spec_decode(raw) {
            Ok(e) => Some(e),
            Err(_) => None,
        }
    }
}

/// What `wait` returns for every driver outcome.
pub open spec fn spec_wait(delivered: i32, raw: RawEvent) -> Result<Event, WaitError> {
    if delivered == 0 {
        Err(WaitError::WaitFailed)
    } else {
        match spec_decode(raw) {
            Ok(e) => Ok(e),
            Err(_) => Err(WaitError::UnrecognizedEvent),
        }
    }
}

} // verus!
