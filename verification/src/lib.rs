//! User-mode synchronization runtime for a capability-based microkernel.
//!
//! The crate models, and proves correct, the kernel-assisted mutex and
//! condition-variable protocol of a Horizon-style operating system: a mutex is
//! a single 32-bit word shared between threads, manipulated in user space with
//! exclusive load/store instructions and escalated to a kernel arbitration
//! service under contention. The kernel's side of the protocol — its waiter
//! queues and its priority-ordered wake selection — is represented as explicit
//! data, so that every transition of the protocol is an executable, verified
//! function and the protocol's guarantees (mutual exclusion, no lost wakeups,
//! no-op unlock without ownership, non-blocking try-lock) are proved rather
//! than asserted.
//!
//! Alongside the protocol the crate carries the substrate it depends on: the
//! per-thread identity footer kept at the end of each thread-local region, the
//! process-wide thread registry, the result-code shaping of the kernel
//! interface, and the timestamp arithmetic used for wait timeouts.

pub mod common;
pub mod condvar;
pub mod error;
pub mod mutex;
pub mod panic_buf;
pub mod registry;
pub mod result;
pub mod shmem;
pub mod svc;
pub mod ticks;
pub mod time;
pub mod tls_region;
pub mod tmem;
pub mod waitq;
pub mod word;

pub use condvar::Condvar;
pub use condvar::Timeout;
pub use condvar::WaitStatus;
pub use mutex::LockOutcome;
pub use mutex::Mutex;
pub use mutex::UnlockOutcome;
pub use registry::Registry;
pub use tls_region::ThreadVars;
pub use waitq::Waiter;
pub use word::HANDLE_WAIT_MASK;
pub use word::INVALID_TAG;
pub use word::MutexState;
