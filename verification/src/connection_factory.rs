use vstd::prelude::*;

verus! {

/// The factory could not produce a new connection. The text carries
/// the cause for diagnostics; it never surfaces to checkout callers,
/// because the creation loop recovers from these failures locally.
#[derive(Debug)]
pub struct NewConnectionError {
    cause: String,
}

/// The text that describes every connection-creation failure.
pub open spec fn spec_new_connection_error_description() -> Seq<char> {
    "could not create a new connection"@
}

impl NewConnectionError {
    /// The cause carried by this error.
    pub closed spec fn spec_cause(&self) -> Seq<char> {
        self.cause@
    }

    pub fn new(cause: String) -> (r: Self)
        ensures
            r.spec_cause() == cause@,
    {
        Self { cause }
    }

    /// A short fixed account of the error.
    pub fn description(&self) -> (r: &'static str)
        ensures
            r@ == spec_new_connection_error_description(),
    {
        "could not create a new connection"
    }

    /// The full account of the error, cause included.
    pub fn describe(&self) -> (r: String)
        ensures
            r@ == spec_new_connection_error_description() + ": "@ + self.spec_cause(),
    {
        String::from_str("could not create a new connection").concat(": ").concat(
            self.cause.as_str(),
        )
    }
}

} // verus!
