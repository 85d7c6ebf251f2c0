use server::error::Error;
use server::runtime::{build_runtime, configure, outcome, plan, sizing, start, Workers};
use std::time::Duration;

#[test]
fn sizing_without_a_limit_leaves_the_choice_to_the_platform() {
    assert_eq!(sizing(None), Ok(Workers::PlatformDefault));
}

#[test]
fn sizing_takes_a_positive_limit_as_it_is() {
    assert_eq!(sizing(Some(1)), Ok(Workers::Exact(1)));
    assert_eq!(sizing(Some(4)), Ok(Workers::Exact(4)));
    assert_eq!(sizing(Some(u32::MAX)), Ok(Workers::Exact(u32::MAX as usize)));
}

#[test]
fn sizing_refuses_a_limit_of_zero() {
    assert_eq!(sizing(Some(0)), Err(Error::Runtime));
}

#[test]
fn sizing_comes_to_the_limit_or_to_the_platform_default() {
    assert_eq!(Workers::Exact(4).count(8), 4);
    assert_eq!(Workers::Exact(4).count(0), 4);
    assert_eq!(Workers::PlatformDefault.count(8), 8);
    assert_eq!(Workers::PlatformDefault.count(0), 0);
    assert!(Workers::Exact(4).is_valid());
    assert!(Workers::PlatformDefault.is_valid());
    assert!(!Workers::Exact(0).is_valid());
}

#[test]
fn plan_takes_the_limit_where_there_is_one() {
    assert_eq!(plan(Some(4), 8), Ok(4));
    assert_eq!(plan(Some(1), 8), Ok(1));
    assert_eq!(plan(Some(4), 0), Ok(4));
}

#[test]
fn plan_takes_the_platform_default_where_there_is_no_limit() {
    assert_eq!(plan(None, 8), Ok(8));
    assert_eq!(plan(None, 1), Ok(1));
}

#[test]
fn plan_refuses_a_count_of_zero() {
    assert_eq!(plan(Some(0), 8), Err(Error::Runtime));
    assert_eq!(plan(Some(0), 0), Err(Error::Runtime));
    assert_eq!(plan(None, 0), Err(Error::Runtime));
}

#[test]
fn runtime_has_exactly_the_workers_asked_for() {
    for limit in [1u32, 2, 3, 4, 7] {
        let runtime = build_runtime(Some(limit), 5).expect("the runtime is built");
        assert_eq!(runtime.metrics().num_workers(), limit as usize);
    }
}

#[test]
fn runtime_without_a_limit_is_built_with_the_platform_default() {
    for platform_default in [1usize, 2, 6] {
        let runtime = build_runtime(None, platform_default).expect("the runtime is built");
        assert_eq!(runtime.metrics().num_workers(), platform_default);
    }
}

#[test]
fn runtime_with_a_limit_of_zero_is_a_runtime_failure() {
    assert!(matches!(build_runtime(Some(0), 4), Err(Error::Runtime)));
}

#[test]
fn runtime_without_a_limit_and_without_a_default_is_a_runtime_failure() {
    assert!(matches!(build_runtime(None, 0), Err(Error::Runtime)));
}

#[test]
fn configured_builder_gives_a_multi_threaded_runtime_of_that_size() {
    let runtime = configure(3).build().expect("the runtime is built");
    assert_eq!(runtime.metrics().num_workers(), 3);
    assert_eq!(
        runtime.handle().runtime_flavor(),
        tokio::runtime::RuntimeFlavor::MultiThread
    );
}

#[test]
fn runtime_runs_a_future_to_completion() {
    let runtime = build_runtime(Some(2), 4).expect("the runtime is built");
    assert_eq!(runtime.block_on(async { 6 * 7 }), 42);
}

#[test]
fn runtime_has_its_timer_enabled() {
    let runtime = build_runtime(Some(1), 4).expect("the runtime is built");
    runtime.block_on(async {
        tokio::time::sleep(Duration::from_millis(1)).await;
    });
}

#[test]
fn runtime_has_its_io_driver_enabled() {
    let runtime = build_runtime(Some(1), 4).expect("the runtime is built");
    let port = runtime.block_on(async {
        let listener = tokio::net::TcpListener::bind("127.0.0.1:0")
            .await
            .expect("a free loopback port is bound");
        listener.local_addr().expect("the listener has an address").port()
    });
    assert_ne!(port, 0);
}

#[test]
fn start_sizes_the_pool_as_told() {
    let runtime = start(Workers::Exact(3), 2).expect("the runtime is built");
    assert_eq!(runtime.metrics().num_workers(), 3);
    let runtime = start(Workers::PlatformDefault, 2).expect("the runtime is built");
    assert_eq!(runtime.metrics().num_workers(), 2);
}

#[test]
fn outcome_keeps_a_runtime_that_was_built() {
    let built = start(Workers::Exact(2), 4);
    assert!(built.is_ok());
    let kept = outcome(built).expect("the runtime is kept");
    assert_eq!(kept.metrics().num_workers(), 2);
}

#[test]
fn outcome_turns_a_refusal_into_the_runtime_failure() {
    let refused = Err(std::io::Error::new(std::io::ErrorKind::Other, "no threads left"));
    assert!(matches!(outcome(refused), Err(Error::Runtime)));
}
