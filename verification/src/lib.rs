//! Short, self-contained demonstrations of core language concepts, each
//! with a machine-checked contract: handing a string from one owner to the
//! next, reaching a function through nested modules, adding to a counter,
//! and the handle of a thread pool.

pub mod counter;
pub mod ownership;
pub mod restaurant;
pub mod thread_pool;

pub use restaurant::eat_at_restaurant;
pub use thread_pool::ThreadPool;
