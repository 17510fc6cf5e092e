use vstd::prelude::*;

verus! {

/// The error taxonomy that the lifecycle controller surfaces to its caller.
///
/// Variants that are specific to one instance or one lower-level failure carry
/// the context as a plain string.
#[derive(Debug)]
pub enum ShimError {
    /// A descriptor file or stdio handle could not be read or opened.
    IoError,
    /// The options descriptor was present but malformed.
    ParseError,
    /// An unsupported argument, such as a signal outside the accepted set.
    InvalidArgument(String),
    /// The persisted state for an instance could not be loaded on a kill.
    StateLoadFailure(String),
    /// A failure of the backing container runtime, with added context.
    RuntimeFailure(String),
    /// A kill was attempted on a container that is already stopped.
    NotRunning,
}

impl ShimError {
    /// The message carried by the variant, or the variant's fixed wording.
    pub fn message(&self) -> (r: String)
        ensures
            self is IoError ==> r@ == "i/o failure"@,
            self is ParseError ==> r@ == "malformed options descriptor"@,
            self matches ShimError::InvalidArgument(m) ==> r@ == m@,
            self matches ShimError::StateLoadFailure(m) ==> r@ == m@,
            self matches ShimError::RuntimeFailure(m) ==> r@ == m@,
            self is NotRunning ==> r@ == "container not running"@,
    {
        match self {
            ShimError::IoError => String::from_str("i/o failure"),
            ShimError::ParseError => String::from_str("malformed options descriptor"),
            ShimError::InvalidArgument(m) => m.clone(),
            ShimError::StateLoadFailure(m) => m.clone(),
            ShimError::RuntimeFailure(m) => m.clone(),
            ShimError::NotRunning => String::from_str("container not running"),
        }
    }
}

} // verus!
