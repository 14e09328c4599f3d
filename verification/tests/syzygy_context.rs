use std::time::Instant;

use syzygy::{Effect, Syzygy};

#[derive(Debug, Clone)]
struct TestModel {
    counter: i32,
}

#[derive(Debug, Clone)]
struct TestResource {
    name: String,
}

const TEST_RESOURCE: u64 = 7;

enum StaticEffect {
    UpdateCounter,
    ReadModel,
    EffectFn(Box<dyn FnOnce(&mut Syzygy<TestModel, StaticEffect>) + Send + Sync + 'static>),
}

impl Effect<TestModel> for StaticEffect {
    fn execute(self, syzygy: &mut Syzygy<TestModel, Self>) {
        match self {
            StaticEffect::UpdateCounter => {
                syzygy.update(|m| m.counter += 1);
            }
            StaticEffect::ReadModel => {
                syzygy.query(|m| m.counter);
            }
            StaticEffect::EffectFn(f) => {
                (f)(syzygy);
            }
        }
    }
}

#[test]
fn test_model() {
    let rt = tokio::runtime::Runtime::new().unwrap();
    let model = TestModel { counter: 0 };
    let mut syzygy: Syzygy<TestModel, StaticEffect> = Syzygy::builder()
        .model(model)
        .tokio_handle(rt.handle().clone())
        .build();

    // Test initial state
    let counter = syzygy.model().counter;
    assert_eq!(counter, 0);

    // Test model() access
    assert_eq!(syzygy.model().counter, 0);

    // Test model_mut() modification
    syzygy.model_mut().counter += 1;
    assert_eq!(syzygy.model().counter, 1);

    // Test update
    syzygy.update(|m| {
        m.counter = 42;
    });
    assert_eq!(syzygy.model().counter, 42);

    // Test query
    let value = syzygy.query(|m| m.counter);
    assert_eq!(value, 42);
}

#[test]
fn test_resources() {
    let rt = tokio::runtime::Runtime::new().unwrap();
    let model = TestModel { counter: 0 };
    let test_resource = TestResource {
        name: "test_str".to_string(),
    };
    let syzygy: Syzygy<TestModel, StaticEffect, TestResource> = Syzygy::builder()
        .model(model)
        .resource(TEST_RESOURCE, test_resource)
        .tokio_handle(rt.handle().clone())
        .build();

    // Test accessing existing TestResource
    assert_eq!(syzygy.resource(TEST_RESOURCE).name, "test_str");

    // Test try_resource for existing resources
    let test_resource = syzygy.try_resource(TEST_RESOURCE);
    assert!(test_resource.is_some());
    assert_eq!(test_resource.unwrap().name, "test_str");
}

#[test]
fn test_static_dispatch() {
    let rt = tokio::runtime::Runtime::new().unwrap();
    let model = TestModel { counter: 0 };
    let mut syzygy: Syzygy<TestModel, StaticEffect> = Syzygy::builder()
        .model(model)
        .tokio_handle(rt.handle().clone())
        .build();

    // Test dispatching updates
    let _ = syzygy.send(StaticEffect::UpdateCounter);

    // Test dispatching multiple updates
    let _ = syzygy.send_multiple(vec![
        StaticEffect::UpdateCounter,
        StaticEffect::UpdateCounter,
        StaticEffect::UpdateCounter,
    ]);

    let _ = syzygy.send(StaticEffect::UpdateCounter);

    syzygy.handle_effects();
    assert_eq!(syzygy.model().counter, 5);
}

#[test]
fn test_dispatch_performance() {
    let rt = tokio::runtime::Runtime::new().unwrap();
    let model = TestModel { counter: 0 };
    let mut static_syzygy: Syzygy<TestModel, StaticEffect> = Syzygy::builder()
        .model(model.clone())
        .tokio_handle(rt.handle().clone())
        .build();

    const ITERATIONS: usize = 1_000_000;
    const RUNS: usize = 10;

    // Test static dispatch
    let mut static_best = std::time::Duration::from_secs(u64::MAX);
    for _ in 0..RUNS {
        let start = Instant::now();
        for _ in 0..ITERATIONS {
            let _ = static_syzygy.send_blocking(StaticEffect::ReadModel);
        }
        static_syzygy.handle_effects();
        let duration = start.elapsed();
        static_best = static_best.min(duration);
    }
    let static_ops = ITERATIONS as f64 / static_best.as_secs_f64();
    assert!(static_ops > 0.0);
}
