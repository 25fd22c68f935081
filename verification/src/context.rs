//! The execution-context abstraction: file loading and run-elsewhere as two
//! independent capabilities, composable into one context object.
//!
//! The capabilities are stated here over plain values; how a surrounding
//! runtime defers them (worker pools, pending computations) is that
//! runtime's concern and stays outside this crate.

use vstd::prelude::*;

verus! {

/// The capability to produce a file's raw bytes from a path, or an I/O
/// error's text.  Implementations may resolve in place or hand the work to
/// a background loader; callers may rely only on eventual resolution.
pub trait FileLoader {
    /// Loads the file at `path`.
    fn load_file(&self, path: &str) -> (r: Result<Vec<u8>, String>);
}

/// The capability to run a computation outside the caller's current
/// execution context, e.g. on a dedicated worker pool, so that CPU-bound or
/// blocking work does not stall whatever drives the composition call.
pub trait RunElsewhere {
    /// Runs `task` elsewhere and resolves with its result: the returned
    /// value is one the task itself could have produced.
    fn execute<T: Send + 'static, F: FnOnce() -> T + Send + 'static>(&self, task: F) -> (r: T)
        requires
            task.requires(()),
        ensures
            task.ensures((), r),
    ;
}

impl<F: FileLoader> FileLoader for std::sync::Arc<F> {
    /// Delegates to the shared loader.
    fn load_file(&self, path: &str) -> (r: Result<Vec<u8>, String>) {
        (**self).load_file(path)
    }
}

impl<I: RunElsewhere> RunElsewhere for std::sync::Arc<I> {
    /// Delegates to the shared executor.
    fn execute<T: Send + 'static, F: FnOnce() -> T + Send + 'static>(&self, task: F) -> (r: T) {
        (**self).execute(task)
    }
}

/// A full builder context: both capabilities, shareable across concurrent
/// compositions.
pub trait BuilderContext: FileLoader + RunElsewhere + Clone + Send + Sync {
}

impl<T: FileLoader + RunElsewhere + Clone + Send + Sync> BuilderContext for T {
}

/// A context composed of two independently supplied capability
/// implementations, each simply delegated to; file loading and off-thread
/// execution can so be configured independently.
#[derive(Debug, Clone, PartialEq, Eq, Hash, Default)]
pub struct CompositeBuilderContext<FL, EW> {
    /// The file-loading capability.
    pub file_loader: FL,
    /// The run-elsewhere capability.
    pub elsewhere: EW,
}

impl<FL: FileLoader, EW: RunElsewhere> CompositeBuilderContext<FL, EW> {
    /// Composes the two capabilities into one context.
    pub fn new(file_loader: FL, elsewhere: EW) -> (r: Self)
        ensures
            r.file_loader == file_loader,
            r.elsewhere == elsewhere,
    {
        CompositeBuilderContext { file_loader, elsewhere }
    }
}

impl<FL: FileLoader, EW> FileLoader for CompositeBuilderContext<FL, EW> {
    /// Delegates to the file-loading capability.
    fn load_file(&self, path: &str) -> (r: Result<Vec<u8>, String>) {
        self.file_loader.load_file(path)
    }
}

impl<FL, EW: RunElsewhere> RunElsewhere for CompositeBuilderContext<FL, EW> {
    /// Delegates to the run-elsewhere capability.
    fn execute<T: Send + 'static, F: FnOnce() -> T + Send + 'static>(&self, task: F) -> (r: T) {
        self.elsewhere.execute(task)
    }
}

} // verus!
