//! A kernel mutex that is created on first use.
//!
//! The mutex keeps the uid of its kernel object in an atomic integer, which
//! passes through these values:
//! - `0`: nobody has asked for the kernel object yet;
//! - `-1`: one thread has claimed the right to create it and is doing so;
//! - a positive value: the uid of the created kernel object;
//! - a value below `-2`: the error with which creation failed;
//! - `-2`: creation returned a value that breaks the kernel's convention.
//!
//! Locking exchanges `0` for `-1`. The thread whose exchange succeeds creates
//! the kernel object and publishes the outcome; every other thread reads the
//! published outcome, or yields and tries again while creation is under way.

use vstd::prelude::*;
use crate::io::Error;

pub use core::sync::atomic::AtomicI32 as AtomicUID;

verus! {

/// What a thread does after its exchange of `0` for `-1` on the uid.
pub enum LockStep {
    /// The kernel mutex exists: lock the one with this uid.
    Acquire(i32),
    /// The mutex is being created elsewhere, or the exchange failed
    /// spuriously: yield and exchange again.
    Retry,
    /// This thread won the exchange: create the kernel mutex.
    Create,
    /// Creating the kernel mutex failed with this error.
    Fail(Error),
}

/// An exchange result that the protocol can meet: `-2` is published only
/// after a broken creation, and a successful exchange always saw `0`.
pub open spec fn exchange_is_expected(observed: Result<i32, i32>) -> bool {
    match observed {
        Ok(v) => v == 0,
        Err(v) => v != -2,
    }
}

/// `step` is what a thread does after its exchange gave `observed`.
pub open spec fn exchange_step(observed: Result<i32, i32>, step: LockStep) -> bool {
    match observed {
        Ok(_) => step is Create,
        Err(v) => if v > 0 {
            step == LockStep::Acquire(v)
        } else if v >= -1 {
            step is Retry
        } else {
            step matches LockStep::Fail(e) && e@ == v
        },
    }
}

/// A value that creation can return without breaking the convention.
pub open spec fn creation_is_expected(mtx: i32) -> bool {
    !(-2 <= mtx <= 0)
}

/// `outcome` is what the creating thread gets from a creation that returned
/// `mtx`: the uid of the mutex, or the error.
pub open spec fn creation_outcome(mtx: i32, outcome: Result<i32, Error>) -> bool {
    if mtx > 0 {
        outcome == Ok::<i32, Error>(mtx)
    } else {
        outcome matches Err(e) && e@ == mtx
    }
}

/// The step that follows an exchange on the uid that observed `observed`.
pub fn on_exchange(observed: Result<i32, i32>) -> (step: LockStep)
    requires
        exchange_is_expected(observed),
    ensures
        exchange_step(observed, step),
{
    match observed {
        Err(uid) => {
            if uid > 0 {
                LockStep::Acquire(uid)
            } else if uid >= -1 {
                LockStep::Retry
            } else {
                LockStep::Fail(Error::from_raw_os_error(uid))
            }
        },
        Ok(_) => LockStep::Create,
    }
}

/// The outcome for the creating thread of a creation that returned `mtx`;
/// the value it publishes on the uid is `mtx` itself.
pub fn on_created(mtx: i32) -> (outcome: Result<i32, Error>)
    requires
        creation_is_expected(mtx),
    ensures
        creation_outcome(mtx, outcome),
{
    if mtx < 0 {
        Err(Error::from_raw_os_error(mtx))
    } else {
        Ok(mtx)
    }
}

/// What a thread does after its exchange on the uid saw `observed`; `None`
/// when the exchange saw what the protocol never publishes: `-2`, left by a
/// broken creation on another thread, after which no thread waits, creates
/// or locks, or a successful exchange that did not see `0`.
pub fn step_for(observed: Result<i32, i32>) -> (r: Option<LockStep>)
    ensures
        r is None <==> !exchange_is_expected(observed),
        r matches Some(step) ==> exchange_step(observed, step),
{
    if exchange_is_expected_exec(&observed) {
        Some(on_exchange(observed))
    } else {
        None
    }
}

/// The uid of a mutex whose kernel object nobody has asked for yet.
pub fn initial_uid() -> (v: i32)
    ensures
        v == 0,
{
    0
}

/// The values of the exchange with which a locker claims the right to
/// create the kernel object: it replaces `0` (nobody has asked) with `-1`
/// (creation under way), in that order.
pub fn claim_exchange() -> (r: (i32, i32))
    ensures
        r == (0i32, -1i32),
{
    (0, -1)
}

/// The value that the creating thread publishes on the uid after creation
/// returned `mtx`.
pub fn publish_value(mtx: i32) -> (v: i32)
    ensures
        v == published_value(mtx),
        !(-2 <= mtx <= 0) ==> v == mtx,
        -2 <= mtx <= 0 ==> v == -2,
{
    if -2 <= mtx && mtx <= 0 {
        -2
    } else {
        mtx
    }
}

/// A mutex of the kernel, created the first time it is locked.
pub struct RawMutex {
    uid: AtomicUID,
}

impl RawMutex {
    /// A mutex whose kernel object does not exist yet: its uid is
    /// `initial_uid()`, which is `0`.
    pub fn new() -> (m: RawMutex) {
        RawMutex { uid: AtomicUID::new(initial_uid()) }
    }

    /// Exchanges `0` for `-1` on the uid; gives the value the exchange saw
    /// and what to do next (`step_for` of that value).
    ///
    /// Other threads act on the uid at the same time, so nothing fixes which
    /// value the exchange sees.
    pub fn claim(&self) -> (r: (Result<i32, i32>, Option<LockStep>))
        ensures
            r.1 is None <==> !exchange_is_expected(r.0),
            r.1 matches Some(step) ==> exchange_step(r.0, step),
    {
        let (current, new) = claim_exchange();
        let observed = self.uid.compare_exchange_weak(
            current,
            new,
            core::sync::atomic::Ordering::Acquire,
            core::sync::atomic::Ordering::Relaxed,
        );
        let step = step_for(observed);
        (observed, step)
    }

    /// Publishes `publish_value(mtx)` on the uid, the value that creation
    /// returned or `-2` when that value breaks the convention, and gives the
    /// creating thread its outcome; `None` in the second case.
    pub fn finish_create(&self, mtx: i32) -> (r: Option<Result<i32, Error>>)
        ensures
            r is None <==> !creation_is_expected(mtx),
            r matches Some(outcome) ==> creation_outcome(mtx, outcome),
    {
        self.uid.store(publish_value(mtx), core::sync::atomic::Ordering::Release);
        if -2 <= mtx && mtx <= 0 {
            None
        } else {
            Some(on_created(mtx))
        }
    }

    /// The value now held by the uid.
    pub fn uid(&self) -> i32 {
        self.uid.load(core::sync::atomic::Ordering::Acquire)
    }
}

/// Tells whether the protocol can meet an exchange result.
fn exchange_is_expected_exec(observed: &Result<i32, i32>) -> (b: bool)
    ensures
        b == exchange_is_expected(*observed),
{
    match observed {
        Ok(v) => *v == 0,
        Err(v) => *v != -2,
    }
}

/// Once the creating thread has published a value, no thread that exchanges
/// afterwards creates the mutex again or waits for it.
pub proof fn lemma_published_is_final(mtx: i32, step: LockStep)
    requires
        creation_is_expected(mtx),
        exchange_step(Err(mtx), step),
    ensures
        exchange_is_expected(Err(mtx)),
        !(step is Create),
        !(step is Retry),
{
}

/// Every thread that reads the published value gets the outcome that the
/// creating thread got: the same uid, or an error with the same code.
pub proof fn lemma_threads_agree(mtx: i32, outcome: Result<i32, Error>, step: LockStep)
    requires
        creation_is_expected(mtx),
        creation_outcome(mtx, outcome),
        exchange_step(Err(mtx), step),
    ensures
        outcome matches Ok(uid) ==> step == LockStep::Acquire(uid),
        outcome matches Err(e) ==> (step matches LockStep::Fail(f) && f@ == e@),
{
}

/// Only a thread whose exchange succeeded creates the mutex, and it is the
/// only one to which `0` is handed over.
pub proof fn lemma_only_winner_creates(observed: Result<i32, i32>, step: LockStep)
    requires
        exchange_is_expected(observed),
        exchange_step(observed, step),
    ensures
        step is Create <==> observed is Ok,
{
}

/// The value that the creating thread publishes on the uid after creation
/// returned `mtx`: `mtx` itself, or `-2` when `mtx` breaks the convention.
pub open spec fn published_value(mtx: i32) -> i32 {
    if creation_is_expected(mtx) {
        mtx
    } else {
        -2i32
    }
}

/// Whatever creation returned, a locker whose exchange sees the published
/// value stops waiting: it acquires the mutex or fails with the creation's
/// error, or, when the mutex is poisoned by a broken creation, gets no step
/// at all (and ends its attempt).
pub proof fn lemma_published_ends_wait(mtx: i32)
    ensures
        !exchange_is_expected(Err(published_value(mtx))) <==> !creation_is_expected(mtx),
        forall|step: LockStep|
            #[trigger] exchange_step(Err(published_value(mtx)), step) ==> !(step is Retry)
                && !(step is Create),
{
}

/// After a creation that kept the convention, the published value is the
/// very value creation returned, and a locker whose exchange sees it gets the
/// creating thread's outcome: the same uid, or an error with the same code.
/// After a broken creation, the published value is `-2`, which no creation
/// that kept the convention publishes.
pub proof fn lemma_publish_keeps_creation_result(
    mtx: i32,
    outcome: Result<i32, Error>,
    step: LockStep,
)
    requires
        creation_outcome(mtx, outcome),
        exchange_step(Err(published_value(mtx)), step),
    ensures
        !(-2 <= mtx <= 0) ==> published_value(mtx) == mtx,
        -2 <= mtx <= 0 ==> published_value(mtx) == -2,
        !(-2 <= mtx <= 0) ==> (outcome matches Ok(uid) ==> step == LockStep::Acquire(uid)),
        !(-2 <= mtx <= 0) ==> (outcome matches Err(e) ==> (step matches LockStep::Fail(f)
            && f@ == e@)),
        forall|other: i32| !(-2 <= other <= 0) ==> published_value(other) != -2,
{
}

} // verus!
