//! The thread pool on which a batch is decoded and filtered: one pool per
//! window service, sized to the machine's logical CPUs.

use rayon::ThreadPool;
use rayon::ThreadPoolBuildError;
use rayon::ThreadPoolBuilder;
use vstd::prelude::*;

verus! {

/// Number of pool threads where the CPU count cannot be had.
pub const NUM_THREADS: u32 = 10;

#[verifier::external_type_specification]
#[verifier::external_body]
pub struct ExThreadPool(ThreadPool);

#[verifier::external_type_specification]
#[verifier::external_body]
pub struct ExThreadPoolBuildError(ThreadPoolBuildError);

#[verifier::external_type_specification]
#[verifier::external_body]
pub struct ExCpuError(sys_info::Error);

/// Why no thread pool could be had.
#[derive(Clone, Copy, Debug, PartialEq, Eq, Structural)]
pub enum PoolError {
    /// The pool's threads could not be started.
    Build,
}

/// The number of threads for a detected CPU count: that count, or
/// `NUM_THREADS` where none was detected.
pub open spec fn threads_for(detected: Option<u32>) -> usize {
    match detected {
        Some(cpus) => cpus as usize,
        None => NUM_THREADS as usize,
    }
}

/// The number of pool threads for a detected CPU count.
pub fn pool_threads(detected: Option<u32>) -> (threads: usize)
    ensures
        threads == threads_for(detected),
{
    match detected {
        Some(cpus) => cpus as usize,
        None => NUM_THREADS as usize,
    }
}

/// The machine's count of logical CPUs.
///
/// Trusted: `sys_info::cpu_num`. Nothing is claimed of the result, which
/// depends on the machine.
#[verifier::external_body]
fn cpu_num() -> Result<u32, sys_info::Error> {
    sys_info::cpu_num()
}

/// The number of threads that a pool holds, as its `current_num_threads`
/// reports it.
pub uninterp spec fn thread_count(pool: ThreadPool) -> usize;

/// A thread pool of the given size; with 0, rayon picks the size.
///
/// Trusted: rayon's `ThreadPoolBuilder::new`, `num_threads` and `build`.
/// Whether threads can be started depends on the machine, so nothing is
/// claimed of success. Of a pool that was built the contract claims what
/// `num_threads` documents: asked for a number of threads other than 0, the
/// pool starts at most that number.
#[verifier::external_body]
fn build_pool(threads: usize) -> (built: Result<ThreadPool, ThreadPoolBuildError>)
    ensures
        built matches Ok(pool) ==> threads > 0 ==> thread_count(pool) <= threads,
{
    ThreadPoolBuilder::new().num_threads(threads).build()
}

/// The number of threads for this machine's pool: its count of logical CPUs,
/// or `NUM_THREADS` where the machine does not tell.
pub fn detect_pool_threads() -> (threads: usize)
    ensures
        threads <= u32::MAX,
{
    match cpu_num() {
        Ok(cpus) => pool_threads(Some(cpus)),
        Err(_) => pool_threads(None),
    }
}

/// Starts a pool with the given number of threads. A pool that was started
/// holds at most `threads` threads; with 0 threads asked for, rayon picks the
/// size. Whether the pool can be started is up to the machine.
pub fn thread_pool(threads: usize) -> (pool: Result<ThreadPool, PoolError>)
    ensures
        pool matches Ok(started) ==> threads > 0 ==> thread_count(started) <= threads,
{
    match build_pool(threads) {
        Ok(pool) => Ok(pool),
        Err(_) => Err(PoolError::Build),
    }
}

} // verus!
