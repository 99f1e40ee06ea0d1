//! The failures that the filter tells apart.

use vstd::prelude::*;

verus! {

/// A failure of the filter. The first two stop the filter from becoming
/// active; the others are recorded and recovered from, and only
/// `CacheNeverPopulated` ever shows in a response.
#[derive(Clone, Copy, Debug, PartialEq, Eq, Structural)]
pub enum FilterError {
    /// No configuration payload was supplied.
    ConfigMissing,
    /// The configuration payload does not have the expected shape.
    ConfigMalformed,
    /// The upstream call could not be started.
    DispatchFailure,
    /// The header providing service answered with an empty body.
    EmptyUpstreamResponse,
    /// The fetched payload could not be stored in the shared cache.
    CacheWriteFailure,
    /// The cached payload does not decode as an object of headers.
    CacheDecodeFailure,
    /// A request arrived before any payload was cached.
    CacheNeverPopulated,
}

impl FilterError {
    /// The line that is recorded for this failure.
    pub open spec fn spec_message(self) -> Seq<char> {
        match self {
            FilterError::ConfigMissing => "configuration missing"@,
            FilterError::ConfigMalformed => "failed to parse configuration"@,
            FilterError::DispatchFailure => "failed calling header providing service"@,
            FilterError::EmptyUpstreamResponse => "header providing service returned empty body"@,
            FilterError::CacheWriteFailure => "failed storing header cache"@,
            FilterError::CacheDecodeFailure => "no usable headers cached"@,
            FilterError::CacheNeverPopulated => "filter not initialised"@,
        }
    }

    /// Whether this failure keeps the filter from becoming active.
    pub open spec fn spec_is_fatal(self) -> bool {
        self == FilterError::ConfigMissing || self == FilterError::ConfigMalformed
    }

    /// The line that is recorded for this failure.
    pub fn message(self) -> (res: &'static str)
        ensures
            res@ == self.spec_message(),
    {
        match self {
            FilterError::ConfigMissing => "configuration missing",
            FilterError::ConfigMalformed => "failed to parse configuration",
            FilterError::DispatchFailure => "failed calling header providing service",
            FilterError::EmptyUpstreamResponse => "header providing service returned empty body",
            FilterError::CacheWriteFailure => "failed storing header cache",
            FilterError::CacheDecodeFailure => "no usable headers cached",
            FilterError::CacheNeverPopulated => "filter not initialised",
        }
    }

    /// Whether this failure keeps the filter from becoming active.
    #[verifier::when_used_as_spec(spec_is_fatal)]
    pub fn is_fatal(self) -> (res: bool)
        ensures
            res == self.spec_is_fatal(),
    {
        match self {
            FilterError::ConfigMissing => true,
            FilterError::ConfigMalformed => true,
            _ => false,
        }
    }
}

} // verus!
