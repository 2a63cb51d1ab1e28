use panic_envelope::boundary::{begin_panic, catch_outcome, catch_panic, drop_uncaught, notification, Fatal, Hook, Unwind};
use panic_envelope::envelope::{ExceptionWithPayload, Marker, Producer, RustPanic, SENTINEL_VALUE};
use panic_envelope::guard::{DropGuard, GuardState};
use panic_envelope::tag::{own_tag, tags_equal};

const SENTINEL: usize = 0x1000;

fn producer() -> Producer {
    Producer { sentinel: SENTINEL }
}

#[derive(Debug, PartialEq)]
struct Record {
    id: u32,
    name: String,
}

#[test]
fn raise_then_catch_integer() {
    let p = producer();
    let r = catch_outcome(&p, begin_panic::<(), i32>(&p, 42));
    assert_eq!(r, Ok(Err(42)));
}

#[test]
fn raise_then_catch_string() {
    let p = producer();
    let r = catch_outcome(&p, begin_panic::<u8, String>(&p, String::from("boom")));
    assert_eq!(r, Ok(Err(String::from("boom"))));
}

#[test]
fn raise_then_catch_record() {
    let p = producer();
    let v = Record { id: 9, name: String::from("nine") };
    let r = catch_panic(&p, || begin_panic::<u64, Record>(&p, v));
    assert_eq!(r, Ok(Err(Record { id: 9, name: String::from("nine") })));
}

#[test]
fn normal_return_is_ok() {
    let p = producer();
    let r = catch_panic(&p, || Unwind::<i32, String>::Returned(7));
    assert_eq!(r, Ok(Ok(7)));
}

#[test]
fn wrong_tag_is_foreign() {
    let p = producer();
    let mut tag = own_tag();
    tag[7] = b'X';
    for addr in [SENTINEL, SENTINEL + 1, 0] {
        let ex = ExceptionWithPayload {
            tag,
            marker: Marker { addr, target: SENTINEL_VALUE },
            payload: RustPanic(5u8, DropGuard::armed()),
        };
        let r = catch_outcome(&p, Unwind::<(), u8>::Unwinding(Some(ex)));
        assert_eq!(r, Err(Fatal::ForeignRecord));
    }
}

#[test]
fn marker_checked_by_address() {
    let p = producer();
    for addr in [SENTINEL + 8, SENTINEL - 8] {
        let ex = ExceptionWithPayload {
            tag: own_tag(),
            marker: Marker { addr, target: SENTINEL_VALUE },
            payload: RustPanic(5u8, DropGuard::armed()),
        };
        assert!(!p.validate(&ex));
        let r = catch_outcome(&p, Unwind::<(), u8>::Unwinding(Some(ex)));
        assert_eq!(r, Err(Fatal::ForeignRecord));
    }
}

#[test]
fn marker_byte_does_not_matter() {
    let p = producer();
    let ex = ExceptionWithPayload {
        tag: own_tag(),
        marker: Marker { addr: SENTINEL, target: 0xAB },
        payload: RustPanic(5u8, DropGuard::armed()),
    };
    assert!(p.validate(&ex));
}

#[test]
fn no_record_is_fatal() {
    let p = producer();
    let r = catch_outcome(&p, Unwind::<(), u8>::Unwinding(None));
    assert_eq!(r, Err(Fatal::NoRecord));
}

#[test]
fn another_producer_rejects_record() {
    let p = producer();
    let q = Producer { sentinel: SENTINEL + 1 };
    let r = catch_outcome(&q, begin_panic::<(), i32>(&p, 1));
    assert_eq!(r, Err(Fatal::ForeignRecord));
}

#[test]
fn uncaught_envelope_fires_guard() {
    let p = producer();
    let ex = RustPanic::wrap(&p, 3i32);
    assert_eq!(ex.payload.1.state, GuardState::Armed);
    assert_eq!(drop_uncaught(ex), Some(Fatal::UnguardedLoss));
}

#[test]
fn disarmed_guard_never_fires() {
    let mut g = DropGuard::armed();
    g.disarm();
    assert_eq!(g.state, GuardState::Disarmed);
    assert!(!g.release());
    g.disarm();
    assert!(!g.release());
    assert_eq!(g.state, GuardState::Disarmed);
}

#[test]
fn armed_guard_fires_once() {
    let mut g = DropGuard::armed();
    assert!(g.release());
    assert_eq!(g.state, GuardState::Fired);
    g.disarm();
    assert_eq!(g.state, GuardState::Fired);
    assert!(!g.release());
}

#[test]
fn innermost_boundary_catches() {
    let p = producer();
    let outer = catch_panic(&p, || {
        let inner = catch_panic(&p, || begin_panic::<u8, i32>(&p, 11));
        Unwind::<Result<Result<u8, i32>, Fatal>, i32>::Returned(inner)
    });
    assert_eq!(outer, Ok(Ok(Ok(Err(11)))));
}

#[test]
fn wrap_then_unwrap() {
    let p = producer();
    let ex = RustPanic::wrap(&p, 77u16);
    assert!(p.validate(&ex));
    let back = RustPanic::unwrap(&p, ex).map(|e| e.0);
    assert_eq!(back, Some(77));
}

#[test]
fn own_tag_bytes() {
    assert_eq!(own_tag(), *b"MOZ\0RUST");
    assert!(tags_equal(&own_tag(), b"MOZ\0RUST"));
    assert!(!tags_equal(&own_tag(), b"MOZ\0RUSX"));
    assert!(!tags_equal(&own_tag(), b"XOZ\0RUST"));
}

#[test]
fn hooks_for_each_outcome() {
    let p = producer();
    let caught = catch_outcome(&p, begin_panic::<(), i32>(&p, 1));
    assert_eq!(notification(&caught), Some(Hook::PayloadCaught));
    let normal = catch_outcome(&p, Unwind::<i32, i32>::Returned(1));
    assert_eq!(notification(&normal), None);
    let none = catch_outcome(&p, Unwind::<(), i32>::Unwinding(None));
    assert_eq!(notification(&none), Some(Hook::ForeignException));
    let lost: Result<Result<(), i32>, Fatal> = Err(Fatal::UnguardedLoss);
    assert_eq!(notification(&lost), Some(Hook::DropWithoutCatch));
}
