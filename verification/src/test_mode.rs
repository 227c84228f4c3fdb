use vstd::prelude::*;

verus! {

/// How a test harness reports kernels the device cannot compile: the
/// value is explicit configuration handed to the harness, never read
/// from ambient process state by the library.
#[derive(Clone, Copy, Debug, PartialEq, Eq, Hash, Structural)]
pub enum TestMode {
    /// Tests resulting in a compilation error are marked as passed.
    Skip,
    /// Tests resulting in a compilation error are marked as failed.
    Panic,
    /// Tests are marked as failed and all data is shown.
    Print,
}

impl Default for TestMode {
    fn default() -> (r: Self)
        ensures
            r == TestMode::Skip,
    {
        TestMode::Skip
    }
}

} // verus!
