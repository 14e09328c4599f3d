use std::cell::Cell;
use std::rc::Rc;

use syzygy::{
    defer, AsyncTaskError, Effect, EffectBatch, EffectBus, RayonPool, Resources,
    SpawnTaskError, Syzygy, TokioHandle,
};

#[derive(Debug, Clone, PartialEq)]
struct Log {
    entries: Vec<u32>,
}

enum LogEffect {
    Push(u32),
    PushThenSend(u32, u32),
}

impl Effect<Log> for LogEffect {
    fn execute(self, syzygy: &mut Syzygy<Log, Self>) {
        match self {
            LogEffect::Push(n) => syzygy.update(|m| m.entries.push(n)),
            LogEffect::PushThenSend(n, later) => {
                syzygy.update(|m| m.entries.push(n));
                let _ = syzygy.send(LogEffect::Push(later));
            }
        }
    }
}

fn new_log_context(rt: &tokio::runtime::Runtime) -> Syzygy<Log, LogEffect> {
    Syzygy::builder()
        .model(Log { entries: vec![] })
        .tokio_handle(rt.handle().clone())
        .build()
}

#[test]
fn effects_run_in_the_order_they_were_sent() {
    let rt = tokio::runtime::Runtime::new().unwrap();
    let mut syzygy = new_log_context(&rt);
    let _ = syzygy.send(LogEffect::Push(1));
    let _ = syzygy.send_multiple(vec![LogEffect::Push(2), LogEffect::Push(3), LogEffect::Push(4)]);
    let _ = syzygy.send(LogEffect::Push(5));
    assert!(syzygy.model().entries.is_empty());
    syzygy.handle_effects();
    assert_eq!(syzygy.model().entries, vec![1, 2, 3, 4, 5]);
}

#[test]
fn effects_sent_while_handling_are_handled_in_the_same_call() {
    let rt = tokio::runtime::Runtime::new().unwrap();
    let mut syzygy = new_log_context(&rt);
    let _ = syzygy.send(LogEffect::PushThenSend(1, 3));
    let _ = syzygy.send(LogEffect::Push(2));
    syzygy.handle_effects();
    assert_eq!(syzygy.model().entries, vec![1, 2, 3]);
}

#[test]
fn handling_an_empty_bus_changes_nothing() {
    let rt = tokio::runtime::Runtime::new().unwrap();
    let mut syzygy = new_log_context(&rt);
    syzygy.handle_effects();
    assert!(syzygy.model().entries.is_empty());
}

#[test]
fn handle_batch_runs_effects_first_to_last() {
    let rt = tokio::runtime::Runtime::new().unwrap();
    let mut syzygy = new_log_context(&rt);
    syzygy.handle_batch(EffectBatch {
        effects: vec![LogEffect::Push(9), LogEffect::Push(8), LogEffect::Push(7)],
        completion: None,
    });
    assert_eq!(syzygy.model().entries, vec![9, 8, 7]);
}

#[test]
fn send_blocking_completes_after_handling() {
    let rt = tokio::runtime::Runtime::new().unwrap();
    let mut syzygy = new_log_context(&rt);
    let mut done = match syzygy.send_blocking(LogEffect::Push(6)) {
        Ok(rx) => rx,
        Err(_) => panic!("the bus is open"),
    };
    assert!(done.try_recv().is_err());
    syzygy.handle_effects();
    assert_eq!(done.blocking_recv(), Ok(()));
    assert_eq!(syzygy.model().entries, vec![6]);
}

#[test]
fn effects_from_a_cloned_sender_reach_the_context() {
    let rt = tokio::runtime::Runtime::new().unwrap();
    let mut syzygy = new_log_context(&rt);
    let mut sender = syzygy.effect_sender().clone();
    let _ = sender.send(LogEffect::Push(11));
    drop(sender);
    syzygy.handle_effects();
    assert_eq!(syzygy.model().entries, vec![11]);
}

#[test]
fn a_closed_bus_hands_effects_back() {
    let bus: EffectBus<u32> = EffectBus::new();
    let EffectBus { mut effect_sender, effect_receiver } = bus;
    drop(effect_receiver);
    assert_eq!(effect_sender.send(3), Err(3));
    assert_eq!(effect_sender.send_multiple(vec![4, 5]), Err(vec![4, 5]));
    assert!(matches!(effect_sender.send_blocking(6), Err(6)));
}

#[test]
fn the_receiver_yields_batches_in_order() {
    let mut bus: EffectBus<u32> = EffectBus::new();
    assert!(bus.effect_receiver.next_effect().is_none());
    let _ = bus.effect_sender.send(1);
    let _ = bus.effect_sender.send_multiple(vec![2, 3]);
    let first = bus.effect_receiver.next_effect().unwrap();
    assert_eq!(first.effects, vec![1]);
    assert!(first.completion.is_none());
    let second = bus.effect_receiver.next_effect().unwrap();
    assert_eq!(second.effects, vec![2, 3]);
    assert!(bus.effect_receiver.next_effect().is_none());
}

#[test]
fn completing_a_batch_fires_its_receiver() {
    let mut bus: EffectBus<u32> = EffectBus::new();
    let (tx, rx) = tokio::sync::oneshot::channel();
    bus.effect_receiver.complete(Some(tx));
    assert_eq!(rx.blocking_recv(), Ok(()));
    bus.effect_receiver.complete(None);
}

#[test]
fn a_gone_waiter_does_not_stop_handling() {
    let rt = tokio::runtime::Runtime::new().unwrap();
    let mut syzygy = new_log_context(&rt);
    let first = syzygy.send_blocking(LogEffect::Push(1));
    drop(first);
    let _ = syzygy.send(LogEffect::Push(2));
    syzygy.handle_effects();
    assert_eq!(syzygy.model().entries, vec![1, 2]);
}

#[test]
fn model_mut_changes_only_the_model() {
    let rt = tokio::runtime::Runtime::new().unwrap();
    let mut syzygy: Syzygy<Log, LogEffect, &str> = Syzygy::builder()
        .model(Log { entries: vec![1] })
        .resource(3, "kept")
        .tokio_handle(rt.handle().clone())
        .build();
    syzygy.model_mut().entries.push(2);
    assert_eq!(syzygy.model().entries, vec![1, 2]);
    assert_eq!(*syzygy.resource(3), "kept");
    assert_eq!(syzygy.resources().len(), 1);
}

#[test]
fn query_reads_without_changing() {
    let rt = tokio::runtime::Runtime::new().unwrap();
    let syzygy = Syzygy::<Log, LogEffect>::builder()
        .model(Log { entries: vec![4, 5] })
        .tokio_handle(rt.handle().clone())
        .build();
    assert_eq!(syzygy.query(|m| m.entries.len()), 2);
    assert_eq!(syzygy.model().entries, vec![4, 5]);
}

#[test]
fn builder_resources_are_found_and_the_last_one_wins() {
    let rt = tokio::runtime::Runtime::new().unwrap();
    let syzygy: Syzygy<Log, LogEffect, String> = Syzygy::builder()
        .resource(1, "first".to_string())
        .resource(2, "other".to_string())
        .resource(1, "second".to_string())
        .model(Log { entries: vec![] })
        .tokio_handle(rt.handle().clone())
        .build();
    assert_eq!(syzygy.resource(1), "second");
    assert_eq!(syzygy.resource(2), "other");
    assert_eq!(syzygy.try_resource(5), None);
    assert_eq!(syzygy.resources().len(), 2);
}

#[test]
fn resources_read_after_write() {
    let mut store: Resources<u32> = Resources::new();
    assert_eq!(store.len(), 0);
    assert_eq!(store.insert(10, 100), None);
    assert_eq!(store.insert(11, 110), None);
    assert_eq!(store.get(10), Some(&100));
    assert!(store.contains(11));
    assert!(!store.contains(12));
    assert_eq!(store.insert(10, 101), Some(100));
    assert_eq!(store.get(10), Some(&101));
    assert_eq!(store.get(11), Some(&110));
    assert_eq!(store.len(), 2);
}

#[test]
fn the_runtime_given_is_kept() {
    let rt = tokio::runtime::Runtime::new().unwrap();
    let handle = TokioHandle::from(rt.handle().clone());
    let syzygy = Syzygy::<Log, LogEffect>::builder()
        .model(Log { entries: vec![] })
        .tokio_handle(handle)
        .build();
    let answer = syzygy.tokio_handle().block_on(async { 40 + 2 });
    assert_eq!(answer, 42);
}

#[test]
fn rayon_pool_wraps_the_pool() {
    let pool = rayon::ThreadPoolBuilder::new().num_threads(2).build().unwrap();
    let shared = RayonPool::from(pool);
    let copy = shared.clone();
    assert_eq!(shared.current_num_threads(), 2);
    assert_eq!(copy.install(|| 6 * 7), 42);
    assert!(std::ptr::eq(&*shared, &*copy));
}

#[test]
fn the_pool_given_to_the_builder_is_kept() {
    let rt = tokio::runtime::Runtime::new().unwrap();
    let pool = rayon::ThreadPoolBuilder::new().num_threads(3).build().unwrap();
    let with_pool = Syzygy::<Log, LogEffect>::builder()
        .model(Log { entries: vec![] })
        .rayon_pool(pool)
        .tokio_handle(rt.handle().clone())
        .build();
    assert_eq!(with_pool.rayon_pool().unwrap().current_num_threads(), 3);
    let without_pool = new_log_context(&rt);
    assert!(without_pool.rayon_pool().is_none());
}

#[test]
fn deferred_function_comes_out_once() {
    let ran = Rc::new(Cell::new(0));
    let seen = ran.clone();
    let mut guard = defer(move || seen.set(seen.get() + 1));
    assert_eq!(ran.get(), 0);
    let f = guard.take_pending().unwrap();
    assert!(guard.take_pending().is_none());
    f();
    assert_eq!(ran.get(), 1);
    drop(guard);
    assert_eq!(ran.get(), 1);
}

#[test]
fn aborted_deferred_never_runs() {
    let ran = Rc::new(Cell::new(0));
    let seen = ran.clone();
    let guard = defer(move || seen.set(seen.get() + 1));
    guard.abort();
    assert_eq!(ran.get(), 0);
}

#[test]
fn error_messages() {
    assert_eq!(AsyncTaskError::SpawnError.message(), "Task spawn failed");
    assert_eq!(AsyncTaskError::SendError.message(), "Channel send failed");
    assert_eq!(AsyncTaskError::ReceiveError.message(), "Channel receive failed");
    let io = std::io::Error::new(std::io::ErrorKind::Other, "no threads left");
    let err = SpawnTaskError::from(io);
    assert_eq!(err.message(), "Thread spawn failed");
    assert_eq!(err.0.kind(), std::io::ErrorKind::Other);
}
