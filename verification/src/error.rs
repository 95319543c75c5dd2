use vstd::prelude::*;

verus! {

/// Shorthand for results of pool initialization.
pub type InitializationResult<T> = Result<T, InitializationError>;

/// Further specifies the kind of a `CheckoutError`.
#[derive(Debug, Clone, Copy, PartialEq, Eq, Structural)]
pub enum CheckoutErrorKind {
    /// Currently there is no connection available.
    NoConnection,
    /// An enqueued request for a checkout that had a timeout set timed
    /// out. A reservation could not be fulfilled.
    CheckoutTimeout,
    /// No connection immediately available and no more requests can be
    /// enqueued to wait for a connection because the reservation queue
    /// has reached its limit.
    ReservationLimitReached,
    /// No connection because there is no pool available.
    NoPool,
    /// The maximum number of checkouts that can be enqueued has been
    /// reached.
    CheckoutLimitReached,
    /// Something went wrong executing a task.
    TaskExecution,
}

/// The text that describes each checkout error kind.
pub open spec fn spec_kind_description(kind: CheckoutErrorKind) -> Seq<char> {
    match kind {
        CheckoutErrorKind::NoConnection => "there are no connections available"@,
        CheckoutErrorKind::CheckoutTimeout => {
            "there was no connection to checkout available in time"@
        },
        CheckoutErrorKind::ReservationLimitReached => "the reservation limit has been reached"@,
        CheckoutErrorKind::NoPool => "there was no pool available"@,
        CheckoutErrorKind::CheckoutLimitReached => "checkout limit limit reached"@,
        CheckoutErrorKind::TaskExecution => "task execution failed"@,
    }
}

impl CheckoutErrorKind {
    /// A short human-readable account of this kind.
    pub fn description(&self) -> (r: &'static str)
        ensures
            r@ == spec_kind_description(*self),
    {
        match self {
            CheckoutErrorKind::NoConnection => "there are no connections available",
            CheckoutErrorKind::CheckoutTimeout => {
                "there was no connection to checkout available in time"
            },
            CheckoutErrorKind::ReservationLimitReached => "the reservation limit has been reached",
            CheckoutErrorKind::NoPool => "there was no pool available",
            CheckoutErrorKind::CheckoutLimitReached => "checkout limit limit reached",
            CheckoutErrorKind::TaskExecution => "task execution failed",
        }
    }
}

/// An error specifying what went wrong on a failed checkout.
#[derive(Debug)]
pub struct CheckoutError {
    kind: CheckoutErrorKind,
}

impl CheckoutError {
    /// The kind carried by this error.
    pub closed spec fn spec_kind(&self) -> CheckoutErrorKind {
        self.kind
    }

    pub fn new(kind: CheckoutErrorKind) -> (r: Self)
        ensures
            r.spec_kind() == kind,
    {
        Self { kind }
    }

    /// The kind of the error which can be matched.
    pub fn kind(&self) -> (r: CheckoutErrorKind)
        ensures
            r == self.spec_kind(),
    {
        self.kind
    }

    /// A short human-readable account of the error.
    pub fn description(&self) -> (r: &'static str)
        ensures
            r@ == spec_kind_description(self.spec_kind()),
    {
        self.kind.description()
    }
}

impl From<CheckoutErrorKind> for CheckoutError {
    fn from(kind: CheckoutErrorKind) -> (r: Self)
        ensures
            r.spec_kind() == kind,
    {
        CheckoutError { kind }
    }
}

impl vstd::std_specs::convert::FromSpecImpl<CheckoutErrorKind> for CheckoutError {
    open spec fn obeys_from_spec() -> bool {
        true
    }

    closed spec fn from_spec(kind: CheckoutErrorKind) -> Self {
        CheckoutError { kind }
    }
}

/// An initialization has failed.
#[derive(Debug)]
pub struct InitializationError {
    message: Option<String>,
    cause: Option<String>,
}

/// The text that describes an initialization error without a message.
pub open spec fn spec_init_error_description() -> Seq<char> {
    "initialization failed"@
}

impl InitializationError {
    /// The message carried by this error, if any.
    pub closed spec fn spec_message(&self) -> Option<Seq<char>> {
        match self.message {
            Some(m) => Some(m@),
            None => None,
        }
    }

    /// The cause carried by this error, if any.
    pub closed spec fn spec_cause(&self) -> Option<Seq<char>> {
        match self.cause {
            Some(c) => Some(c@),
            None => None,
        }
    }

    pub fn new(message: String, cause: Option<String>) -> (r: Self)
        ensures
            r.spec_message() == Some(message@),
            r.spec_cause() == (match cause {
                Some(c) => Some(c@),
                None => None::<Seq<char>>,
            }),
    {
        Self { message: Some(message), cause }
    }

    pub fn message_only(message: String) -> (r: Self)
        ensures
            r.spec_message() == Some(message@),
            r.spec_cause() == None::<Seq<char>>,
    {
        Self { message: Some(message), cause: None }
    }

    pub fn cause_only(cause: String) -> (r: Self)
        ensures
            r.spec_message() == None::<Seq<char>>,
            r.spec_cause() == Some(cause@),
    {
        Self { message: None, cause: Some(cause) }
    }

    /// A short fixed account of the error.
    pub fn description(&self) -> (r: &'static str)
        ensures
            r@ == spec_init_error_description(),
    {
        "initialization failed"
    }

    /// The full account of the error: the message, the cause, or both.
    pub fn describe(&self) -> (r: String)
        ensures
            r@ == (match (self.spec_message(), self.spec_cause()) {
                (Some(m), Some(c)) => m + ": "@ + c,
                (Some(m), None) => m,
                (None, Some(c)) => spec_init_error_description() + ": "@ + c,
                (None, None) => spec_init_error_description(),
            }),
    {
        match (&self.message, &self.cause) {
            (Some(m), Some(c)) => m.clone().concat(": ").concat(c.as_str()),
            (Some(m), None) => m.clone(),
            (None, Some(c)) => String::from_str("initialization failed").concat(": ").concat(
                c.as_str(),
            ),
            (None, None) => String::from_str("initialization failed"),
        }
    }
}

} // verus!
