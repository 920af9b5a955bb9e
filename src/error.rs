use vstd::prelude::*;

verus! {

/// Failures that the library reports to its caller.
#[derive(Debug, Clone, Copy, PartialEq, Eq, Structural)]
pub enum Error {
    /// A line could not be configured or driven.
    PinConfigError,
    /// The transport failed.
    UsbError,
    /// A fixed-capacity buffer was full.
    VecOverflow,
    /// Two parts of the configuration disagree in size.
    SizeMismatch,
}

} // verus!
