//! The propagation boundary: raising a payload, and the catch boundary's
//! decision on what comes back from a protected computation.
use vstd::prelude::*;

use crate::envelope::{ExceptionWithPayload, Producer, RustPanic};
use crate::guard::{guard_run, guard_step, GuardEvent, GuardState};
use crate::guard::{lemma_disarmed_never_fires, lemma_dropped_armed_fires};
use crate::tag::producer_tag;

verus! {

/// The conditions on which the process must terminate at once.
#[derive(PartialEq, Eq, Structural, Clone, Copy, Debug)]
pub enum Fatal {
    /// A record whose tag or marker does not validate.
    ForeignRecord,
    /// The unwinder reported unwinding without a record.
    NoRecord,
    /// An envelope was destroyed with its guard still armed.
    UnguardedLoss,
}

/// How a protected computation ended, as the unwinder reports it: it
/// returned normally, or unwinding reached the boundary, with the record
/// the unwinder carried if it had one.
pub enum Unwind<R, P> {
    Returned(R),
    Unwinding(Option<ExceptionWithPayload<P>>),
}

/// What the catch boundary makes of an outcome: `Ok(Ok(r))` for a normal
/// return, `Ok(Err(v))` for a payload of this producer's, and `Err(fatal)`
/// when the process must terminate.
pub open spec fn catch_result<R, P>(producer: Producer, o: Unwind<R, P>) -> Result<Result<R, P>, Fatal> {
    match o {
        Unwind::Returned(r) => Ok(Ok(r)),
        Unwind::Unwinding(None) => Err(Fatal::NoRecord),
        Unwind::Unwinding(Some(ex)) => if producer.owns(ex) {
            Ok(Err(ex.payload.0))
        } else {
            Err(Fatal::ForeignRecord)
        },
    }
}

/// The notification points that a hosting runtime can observe.
#[derive(PartialEq, Eq, Structural, Clone, Copy, Debug)]
pub enum Hook {
    /// A payload of this producer's was recovered at a catch boundary.
    PayloadCaught,
    /// A record did not validate, or none came: the process aborts next.
    ForeignException,
    /// An envelope was destroyed with its guard armed: the process aborts next.
    DropWithoutCatch,
}

/// The hook to signal for a catch boundary's result; a normal return
/// signals none.
pub open spec fn hook_of<R, P>(r: Result<Result<R, P>, Fatal>) -> Option<Hook> {
    match r {
        Ok(Ok(_)) => None,
        Ok(Err(_)) => Some(Hook::PayloadCaught),
        Err(Fatal::ForeignRecord) => Some(Hook::ForeignException),
        Err(Fatal::NoRecord) => Some(Hook::ForeignException),
        Err(Fatal::UnguardedLoss) => Some(Hook::DropWithoutCatch),
    }
}

/// Which hook to signal for the result `r` of a catch boundary.
pub fn notification<R, P>(r: &Result<Result<R, P>, Fatal>) -> (h: Option<Hook>)
    ensures
        h == hook_of(*r),
{
    match r {
        Ok(Ok(_)) => None,
        Ok(Err(_)) => Some(Hook::PayloadCaught),
        Err(Fatal::ForeignRecord) => Some(Hook::ForeignException),
        Err(Fatal::NoRecord) => Some(Hook::ForeignException),
        Err(Fatal::UnguardedLoss) => Some(Hook::DropWithoutCatch),
    }
}

/// Raises `payload`: wraps it in an envelope of `producer`, with its guard
/// armed, and hands the envelope to the unwinder as the record that unwinds.
pub fn begin_panic<R, P>(producer: &Producer, payload: P) -> (r: Unwind<R, P>)
    ensures
        r matches Unwind::Unwinding(Some(ex)) && producer.is_envelope_of(ex, payload),
{
    Unwind::Unwinding(Some(RustPanic::wrap(producer, payload)))
}

/// Finishes a catch once the record has been checked: with no record, the
/// record was foreign; with one, its guard is disarmed and its payload taken.
fn process_panic<P>(p: Option<RustPanic<P>>) -> (r: Result<P, Fatal>)
    ensures
        r == match p {
            None => Err(Fatal::ForeignRecord),
            Some(e) => Ok::<P, Fatal>(e.0),
        },
{
    match p {
        None => Err(Fatal::ForeignRecord),
        Some(e) => {
            let RustPanic(payload, mut guard) = e;
            guard.disarm();
            Ok(payload)
        },
    }
}

/// The catch boundary's decision on the outcome of a protected computation.
/// A record is unwrapped only after both its tag and its marker validate.
pub fn catch_outcome<R, P>(producer: &Producer, o: Unwind<R, P>) -> (r: Result<Result<R, P>, Fatal>)
    ensures
        r == catch_result(*producer, o),
{
    match o {
        Unwind::Returned(v) => Ok(Ok(v)),
        Unwind::Unwinding(None) => Err(Fatal::NoRecord),
        Unwind::Unwinding(Some(ex)) => match process_panic(RustPanic::unwrap(producer, ex)) {
            Ok(v) => Ok(Err(v)),
            Err(e) => Err(e),
        },
    }
}

/// Runs `f` under protection and decides on how it ended. `Err` means the
/// process must terminate.
pub fn catch_panic<R, P, F: FnOnce() -> Unwind<R, P>>(producer: &Producer, f: F) -> (r: Result<Result<R, P>, Fatal>)
    requires
        f.requires(()),
    ensures
        exists|o: Unwind<R, P>| f.ensures((), o) && r == catch_result(*producer, o),
{
    let o = f();
    catch_outcome(producer, o)
}

/// Destroys a record without passing it through a catch boundary, as an
/// unwinder that drops it would. Returns the fatal condition if its guard
/// was still armed.
pub fn drop_uncaught<P>(ex: ExceptionWithPayload<P>) -> (r: Option<Fatal>)
    ensures
        r == if ex.payload.1.state == GuardState::Armed {
            Some(Fatal::UnguardedLoss)
        } else {
            None::<Fatal>
        },
{
    let ExceptionWithPayload { tag: _, marker: _, payload: RustPanic(_, mut guard) } = ex;
    if guard.release() {
        Some(Fatal::UnguardedLoss)
    } else {
        None
    }
}

/// Round trip: catching the record that raising `v` produces gives `v` back,
/// as the caught payload.
pub proof fn lemma_raise_then_catch<R, P>(producer: Producer, ex: ExceptionWithPayload<P>, v: P)
    requires
        producer.is_envelope_of(ex, v),
    ensures
        catch_result(producer, Unwind::<R, P>::Unwinding(Some(ex))) == Ok::<Result<R, P>, Fatal>(Err(v)),
{
}

/// A record whose tag is not this producer's is foreign, whatever its marker.
pub proof fn lemma_wrong_tag_is_foreign<R, P>(producer: Producer, ex: ExceptionWithPayload<P>)
    requires
        ex.tag@ != producer_tag(),
    ensures
        catch_result(producer, Unwind::<R, P>::Unwinding(Some(ex))) == Err::<Result<R, P>, Fatal>(Fatal::ForeignRecord),
{
}

/// Markers are checked by address, not by the byte they point at: two records
/// with this producer's tag whose markers point at two other addresses are
/// both foreign, even if the bytes there equal the sentinel's.
pub proof fn lemma_marker_identity<R, P>(
    producer: Producer,
    a: ExceptionWithPayload<P>,
    b: ExceptionWithPayload<P>,
)
    requires
        a.tag@ == producer_tag(),
        b.tag@ == producer_tag(),
        a.marker.addr != producer.sentinel,
        b.marker.addr != producer.sentinel,
        a.marker.addr != b.marker.addr,
    ensures
        catch_result(producer, Unwind::<R, P>::Unwinding(Some(a))) == Err::<Result<R, P>, Fatal>(Fatal::ForeignRecord),
        catch_result(producer, Unwind::<R, P>::Unwinding(Some(b))) == Err::<Result<R, P>, Fatal>(Fatal::ForeignRecord),
{
}

/// A raised envelope destroyed without a catch is an unguarded loss: its guard
/// fires, and stays fired whatever follows.
pub proof fn lemma_uncaught_envelope_fires<P>(producer: Producer, ex: ExceptionWithPayload<P>, v: P, later: Seq<GuardEvent>)
    requires
        producer.is_envelope_of(ex, v),
    ensures
        ex.payload.1.state == GuardState::Armed,
        guard_run(ex.payload.1.state, seq![GuardEvent::Drop] + later) == GuardState::Fired,
{
    let es = seq![GuardEvent::Drop] + later;
    assert(es[0] == GuardEvent::Drop);
    lemma_dropped_armed_fires(es);
}

/// Once a catch has recovered the payload of a raised envelope and disarmed its
/// guard, nothing that happens to the guard afterwards makes it fire.
pub proof fn lemma_caught_never_fires<P>(producer: Producer, ex: ExceptionWithPayload<P>, v: P, later: Seq<GuardEvent>)
    requires
        producer.is_envelope_of(ex, v),
    ensures
        guard_step(ex.payload.1.state, GuardEvent::Disarm) == GuardState::Disarmed,
        guard_run(guard_step(ex.payload.1.state, GuardEvent::Disarm), later) == GuardState::Disarmed,
{
    lemma_disarmed_never_fires(later);
}

/// A payload raised inside a computation that runs under an inner boundary,
/// itself inside an outer one, is caught by the inner boundary: the outer one
/// sees its computation return normally, with the inner boundary's result.
pub proof fn lemma_innermost_catches<R, P>(producer: Producer, ex: ExceptionWithPayload<P>, v: P)
    requires
        producer.is_envelope_of(ex, v),
    ensures
        ({
            let inner = catch_result(producer, Unwind::<R, P>::Unwinding(Some(ex)));
            &&& inner == Ok::<Result<R, P>, Fatal>(Err(v))
            &&& catch_result(producer, Unwind::<Result<Result<R, P>, Fatal>, P>::Returned(inner))
                == Ok::<Result<Result<Result<R, P>, Fatal>, P>, Fatal>(Ok(inner))
        }),
{
}

} // verus!
