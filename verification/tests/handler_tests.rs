use std::cell::Cell;
use std::cell::RefCell;

use ping_handler::adapter::FnHandler;
use ping_handler::counting::CountingHandler;
use ping_handler::deferred::{defer_then_drive, drive_in_either_order, handle_deferred};
use ping_handler::handler::{duplicate_reacts_alike, handle_twice_in_order, PingHandler};

#[test]
fn counting_reacts_by_one() {
    let mut handler = CountingHandler::new();
    assert_eq!(handler.count, 0);
    handler.handle(7u64);
    assert_eq!(handler.count, 1);
    handler.handle(7u64);
    assert_eq!(handler.count, 2);
}

#[test]
fn duplicate_is_equivalent_copy() {
    let mut handler = CountingHandler::new();
    handler.handle(1u32);
    handler.handle(2u32);
    let duplicate = <CountingHandler as PingHandler<u32>>::duplicate(&handler);
    assert_eq!(duplicate.count, handler.count);
}

#[test]
fn duplicate_reacts_like_the_source() {
    let mut handler = CountingHandler::new();
    handler.handle(5u64);
    let mut copy = duplicate_reacts_alike(&mut handler, 8u64, 8u64);
    assert_eq!(handler.count, 2);
    assert_eq!(copy.count, 2);
    copy.handle(9u64);
    assert_eq!(copy.count, 3);
    assert_eq!(handler.count, 2);
}

#[test]
fn three_duplicates_count_independently() {
    let source = CountingHandler::new();
    let mut first = <CountingHandler as PingHandler<u64>>::duplicate(&source);
    let mut second = <CountingHandler as PingHandler<u64>>::duplicate(&source);
    let mut third = <CountingHandler as PingHandler<u64>>::duplicate(&source);
    first.handle(10u64);
    second.handle(20u64);
    third.handle(30u64);
    assert_eq!(first.count, 1);
    assert_eq!(second.count, 1);
    assert_eq!(third.count, 1);
    assert_eq!(source.count, 0);
}

#[test]
fn adapter_passes_through_to_callable() {
    let total: Cell<u32> = Cell::new(0);
    let callable = |endpoint: u32| {
        total.set(total.get() + endpoint);
    };
    callable(5);
    assert_eq!(total.get(), 5);
    let mut handler = FnHandler::new(callable);
    handler.handle(5u32);
    assert_eq!(total.get(), 10);
}

#[test]
fn adapter_duplicate_invokes_the_same_callable() {
    let pings: Cell<u32> = Cell::new(0);
    let callable = |_endpoint: u8| {
        pings.set(pings.get() + 1);
    };
    let handler = FnHandler::new(callable);
    let mut copy = <FnHandler<_> as PingHandler<u8>>::duplicate(&handler);
    copy.handle(3u8);
    assert_eq!(pings.get(), 1);
}

#[test]
fn sequential_reactions_complete_in_order() {
    let seen: RefCell<Vec<u32>> = RefCell::new(Vec::new());
    let callable = |endpoint: u32| {
        seen.borrow_mut().push(endpoint);
    };
    let mut handler = FnHandler::new(callable);
    handle_twice_in_order(&mut handler, 1u32, 2u32);
    assert_eq!(*seen.borrow(), vec![1, 2]);
}

#[test]
fn deferred_reaction_runs_only_when_driven() {
    let total: Cell<u32> = Cell::new(0);
    let callable = |endpoint: u32| {
        total.set(total.get() + endpoint);
    };
    let handler = FnHandler::new(callable);
    let deferred = handle_deferred(handler, 7u32);
    assert!(!deferred.is_done());
    assert_eq!(total.get(), 0);
    let polled = deferred.poll();
    assert!(polled.is_done());
    assert_eq!(total.get(), 7);
    let _after = polled.drive();
    assert_eq!(total.get(), 7);
}

#[test]
fn deferred_counting_completes() {
    let after = defer_then_drive(CountingHandler::new(), 9u64);
    assert_eq!(after.count, 1);
}

#[test]
fn drive_order_does_not_matter() {
    let mut low = CountingHandler::new();
    let mut high = CountingHandler::new();
    for i in 0..5u64 {
        high.handle(i);
    }
    low.handle(0u64);
    let first = handle_deferred(<CountingHandler as PingHandler<u64>>::duplicate(&low), 1u64);
    let second = handle_deferred(<CountingHandler as PingHandler<u64>>::duplicate(&high), 2u64);
    let (a, b) = drive_in_either_order(first, second, true);
    let first = handle_deferred(low, 1u64);
    let second = handle_deferred(high, 2u64);
    let (c, d) = drive_in_either_order(first, second, false);
    assert_eq!(a.count, 2);
    assert_eq!(b.count, 6);
    assert_eq!(c.count, a.count);
    assert_eq!(d.count, b.count);
}
