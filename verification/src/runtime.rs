//! The execution environment: how many worker threads it gets, and its
//! construction through tokio's runtime builder.

use crate::error::Error;
use crate::settings::Settings;
use vstd::prelude::*;

verus! {

#[verifier::external_type_specification]
#[verifier::external_body]
pub struct ExBuilder(tokio::runtime::Builder);

#[verifier::external_type_specification]
#[verifier::external_body]
pub struct ExRuntime(tokio::runtime::Runtime);

#[verifier::external_type_specification]
#[verifier::external_body]
pub struct ExIoError(std::io::Error);

/// Whether a builder is one for the multi-threaded scheduler.
pub uninterp spec fn builder_multi_thread(builder: tokio::runtime::Builder) -> bool;

/// The worker-thread count that a builder has been given, if any.
pub uninterp spec fn builder_workers(builder: tokio::runtime::Builder) -> Option<usize>;

/// Whether a builder has every driver switched on that this build of tokio
/// has: the I/O poller and the timer.
pub uninterp spec fn builder_drivers(builder: tokio::runtime::Builder) -> bool;

/// The number of worker threads that a runtime uses.
pub uninterp spec fn runtime_workers(runtime: tokio::runtime::Runtime) -> usize;

/// Whether a runtime was built with every driver switched on.
pub uninterp spec fn runtime_drivers(runtime: tokio::runtime::Runtime) -> bool;

/// How the worker pool is sized.
#[derive(Clone, Copy, Debug, PartialEq, Eq, Structural)]
pub enum Workers {
    /// As many workers as the platform suggests, typically one for each core.
    PlatformDefault,
    /// Exactly this many workers.
    Exact(usize),
}

impl Workers {
    /// A pool has at least one worker.
    pub open spec fn valid(self) -> bool {
        self matches Workers::Exact(count) ==> count > 0
    }

    /// Tells whether this sizing gives the pool at least one worker.
    pub fn is_valid(&self) -> (valid: bool)
        ensures
            valid == self.valid(),
    {
        match self {
            Workers::PlatformDefault => true,
            Workers::Exact(count) => *count > 0,
        }
    }

    /// The number of workers that this sizing comes to on a platform that
    /// suggests `platform_default` of them.
    pub open spec fn count_on(self, platform_default: usize) -> usize {
        match self {
            Workers::PlatformDefault => platform_default,
            Workers::Exact(count) => count,
        }
    }

    /// Works out the number of workers on a platform that suggests
    /// `platform_default` of them.
    pub fn count(&self, platform_default: usize) -> (count: usize)
        ensures
            count == self.count_on(platform_default),
    {
        match self {
            Workers::PlatformDefault => platform_default,
            Workers::Exact(count) => *count,
        }
    }
}

/// The sizing that a configured limit asks for: none leaves the choice to the
/// platform, zero is no pool at all, any other count is taken as it is.
pub open spec fn sizing_of(worker_limit: Option<u32>) -> Result<Workers, Error> {
    match worker_limit {
        None => Ok(Workers::PlatformDefault),
        Some(limit) => if limit == 0 {
            Err(Error::Runtime)
        } else {
            Ok(Workers::Exact(limit as usize))
        },
    }
}

/// Decides the size of the worker pool from the configured limit.
pub fn sizing(worker_limit: Option<u32>) -> (decided: Result<Workers, Error>)
    ensures
        decided == sizing_of(worker_limit),
        decided matches Ok(workers) ==> workers.valid(),
{
    match worker_limit {
        None => Ok(Workers::PlatformDefault),
        Some(limit) => {
            if limit == 0 {
                Err(Error::Runtime)
            } else {
                Ok(Workers::Exact(limit as usize))
            }
        },
    }
}

/// The number of workers that start-up asks tokio for: the configured limit,
/// or what the platform suggests where there is none. A count of zero, from
/// either, is no pool at all and is the runtime failure.
pub open spec fn planned_workers(worker_limit: Option<u32>, platform_default: usize) -> Result<
    usize,
    Error,
> {
    match sizing_of(worker_limit) {
        Ok(workers) => if workers.count_on(platform_default) == 0 {
            Err(Error::Runtime)
        } else {
            Ok(workers.count_on(platform_default))
        },
        Err(error) => Err(error),
    }
}

/// Decides the number of workers to ask tokio for.
pub fn plan(worker_limit: Option<u32>, platform_default: usize) -> (planned: Result<usize, Error>)
    ensures
        planned == planned_workers(worker_limit, platform_default),
        planned matches Ok(count) ==> count > 0,
{
    match sizing(worker_limit) {
        Ok(workers) => {
            let count = workers.count(platform_default);
            if count == 0 {
                Err(Error::Runtime)
            } else {
                Ok(count)
            }
        },
        Err(error) => Err(error),
    }
}

/// `tokio::runtime::Builder::new_multi_thread`: a builder for the
/// multi-threaded scheduler, with no worker count set.
#[verifier::external_body]
fn multi_thread_builder() -> (builder: tokio::runtime::Builder)
    ensures
        builder_multi_thread(builder),
        builder_workers(builder) is None,
{
    tokio::runtime::Builder::new_multi_thread()
}

/// `tokio::runtime::Builder::enable_all`: switches on the I/O and time
/// drivers and leaves the scheduler and the worker count as they were.
#[verifier::external_body]
fn enable_all_drivers(builder: &mut tokio::runtime::Builder)
    ensures
        builder_drivers(*final(builder)),
        builder_multi_thread(*final(builder)) == builder_multi_thread(*old(builder)),
        builder_workers(*final(builder)) == builder_workers(*old(builder)),
{
    builder.enable_all();
}

/// `tokio::runtime::Builder::worker_threads`: records the worker count and
/// leaves the scheduler and the drivers as they were. tokio panics on a count
/// of zero.
#[verifier::external_body]
fn set_worker_threads(builder: &mut tokio::runtime::Builder, count: usize)
    requires
        count > 0,
    ensures
        builder_workers(*final(builder)) == Some(count),
        builder_multi_thread(*final(builder)) == builder_multi_thread(*old(builder)),
        builder_drivers(*final(builder)) == builder_drivers(*old(builder)),
{
    builder.worker_threads(count);
}

/// `tokio::runtime::Builder::build`, on a builder for the multi-threaded
/// scheduler that holds a worker count: creates the runtime that the builder
/// describes, or reports that the operating system refused its I/O driver.
/// A runtime that comes back has the drivers of the builder and as many
/// workers as the builder holds. Whether it comes back is the machine's
/// decision, so nothing here promises it. A builder without a count is left
/// out: tokio would then read the count from the process environment and
/// panic on a value that is no positive number. Where the operating system
/// cannot start a worker thread, tokio panics instead of returning; no
/// condition on the arguments can leave that out.
#[verifier::external_body]
fn build_from(builder: &mut tokio::runtime::Builder) -> (built: Result<
    tokio::runtime::Runtime,
    std::io::Error,
>)
    requires
        builder_multi_thread(*old(builder)),
        builder_workers(*old(builder)) is Some,
    ensures
        built matches Ok(runtime) ==> {
            &&& runtime_drivers(runtime) == builder_drivers(*old(builder))
            &&& Some(runtime_workers(runtime)) == builder_workers(*old(builder))
        },
{
    builder.build()
}

/// Sets up what tokio is asked for: the multi-threaded scheduler, every
/// driver enabled, and exactly `count` workers.
pub fn configure(count: usize) -> (builder: tokio::runtime::Builder)
    requires
        count > 0,
    ensures
        builder_multi_thread(builder),
        builder_drivers(builder),
        builder_workers(builder) == Some(count),
{
    let mut builder = multi_thread_builder();
    enable_all_drivers(&mut builder);
    set_worker_threads(&mut builder, count);
    builder
}

/// Asks tokio for the runtime that `configure` sets up for the number of
/// workers that `workers` comes to on this platform.
pub fn start(workers: Workers, platform_default: usize) -> (built: Result<
    tokio::runtime::Runtime,
    std::io::Error,
>)
    requires
        workers.count_on(platform_default) > 0,
    ensures
        built matches Ok(runtime) ==> {
            &&& runtime_drivers(runtime)
            &&& runtime_workers(runtime) == workers.count_on(platform_default)
        },
{
    let mut builder = configure(workers.count(platform_default));
    build_from(&mut builder)
}

/// What start-up makes of tokio's answer: the runtime where there is one, the
/// runtime failure otherwise.
pub fn outcome(built: Result<tokio::runtime::Runtime, std::io::Error>) -> (result: Result<
    tokio::runtime::Runtime,
    Error,
>)
    ensures
        built matches Ok(runtime) ==> result == Ok::<tokio::runtime::Runtime, Error>(runtime),
        built is Err ==> result == Err::<tokio::runtime::Runtime, Error>(Error::Runtime),
{
    match built {
        Ok(runtime) => Ok(runtime),
        Err(_) => Err(Error::Runtime),
    }
}

/// Builds the execution environment for the configured worker limit, on a
/// platform that suggests `platform_default` workers.
///
/// A count of zero is refused before tokio is asked. Every other count is
/// handed on: the runtime that comes back has all drivers enabled and exactly
/// the planned number of workers, which is the limit where there is one and
/// the platform's suggestion where there is none. Every failure that is
/// returned is the runtime failure. Where the operating system cannot start a
/// worker thread, tokio panics and nothing is returned.
pub fn build_runtime(worker_limit: Option<u32>, platform_default: usize) -> (result: Result<
    tokio::runtime::Runtime,
    Error,
>)
    ensures
        planned_workers(worker_limit, platform_default) is Err ==> result is Err,
        result matches Err(error) ==> error == Error::Runtime,
        result matches Ok(runtime) ==> {
            &&& runtime_drivers(runtime)
            &&& planned_workers(worker_limit, platform_default) == Ok::<usize, Error>(
                runtime_workers(runtime),
            )
            &&& runtime_workers(runtime) >= 1
        },
{
    match sizing(worker_limit) {
        Ok(workers) => {
            if workers.count(platform_default) == 0 {
                Err(Error::Runtime)
            } else {
                outcome(start(workers, platform_default))
            }
        },
        Err(error) => Err(error),
    }
}

/// The worker limits that are taken are those of valid settings: an
/// absent limit is never refused, a positive one is taken exactly, and zero
/// alone is refused, with the runtime failure.
pub proof fn lemma_sizing_follows_validity(settings: Settings)
    ensures
        sizing_of(settings.worker_limit) is Ok <==> settings.valid(),
        settings.worker_limit is None ==> sizing_of(settings.worker_limit) == Ok::<Workers, Error>(
            Workers::PlatformDefault,
        ),
        settings.worker_limit matches Some(limit) ==> limit > 0 ==> sizing_of(
            settings.worker_limit,
        ) == Ok::<Workers, Error>(Workers::Exact(limit as usize)),
        !settings.valid() ==> sizing_of(settings.worker_limit) == Err::<Workers, Error>(
            Error::Runtime,
        ),
{
}

/// On a platform that suggests at least one worker, no worker limit but zero
/// is refused: an absent limit comes to the platform's suggestion, a positive
/// one to itself.
pub proof fn lemma_plan_refuses_zero_only(worker_limit: Option<u32>, platform_default: usize)
    requires
        platform_default > 0,
    ensures
        planned_workers(worker_limit, platform_default) is Err <==> worker_limit == Some(0u32),
        worker_limit is None ==> planned_workers(worker_limit, platform_default) == Ok::<
            usize,
            Error,
        >(platform_default),
        worker_limit matches Some(limit) ==> limit > 0 ==> planned_workers(
            worker_limit,
            platform_default,
        ) == Ok::<usize, Error>(limit as usize),
{
}

} // verus!
