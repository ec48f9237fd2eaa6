use vstd::prelude::*;

verus! {

/// Configuration errors: these arise when a network is assembled from
/// ill-matched layer dimensions, and abort construction.
#[derive(Clone, Copy, PartialEq, Eq, Structural, Debug)]
pub enum ConfigError {
    /// A sliding-window stride of zero was requested.
    ZeroStride,
    /// A sliding-window kernel of zero size was requested.
    ZeroKernel,
    /// A kernel does not fit inside its input along some spatial axis.
    KernelTooLarge,
    /// `(input - kernel) / stride` does not divide evenly along some axis.
    NonIntegerOutputSize,
    /// A layer's declared input shape differs from the previous layer's
    /// output shape.
    ShapeMismatch,
}

impl ConfigError {
    /// A short description, for callers that report errors as text.
    pub fn describe(&self) -> (r: &'static str)
        ensures
            r@ == self.describe_spec(),
    {
        match self {
            ConfigError::ZeroStride => "stride must be positive",
            ConfigError::ZeroKernel => "kernel must be positive",
            ConfigError::KernelTooLarge => "kernel exceeds input size",
            ConfigError::NonIntegerOutputSize => "output size is not an integer",
            ConfigError::ShapeMismatch => "layer input shape does not match previous output",
        }
    }

    /// The text `describe` returns for each variant.
    pub open spec fn describe_spec(self) -> Seq<char> {
        match self {
            ConfigError::ZeroStride => "stride must be positive"@,
            ConfigError::ZeroKernel => "kernel must be positive"@,
            ConfigError::KernelTooLarge => "kernel exceeds input size"@,
            ConfigError::NonIntegerOutputSize => "output size is not an integer"@,
            ConfigError::ShapeMismatch => "layer input shape does not match previous output"@,
        }
    }
}

} // verus!
