use vstd::prelude::*;

verus! {

/// The kind of error currently shown, if any.
#[derive(Debug, Clone, Copy, PartialEq, Eq, Structural)]
pub enum ErrorState {
    NoError,
    AppError,
    NetworkError,
}

impl Default for ErrorState {
    fn default() -> (r: Self)
        ensures
            r == ErrorState::NoError,
    {
        ErrorState::NoError
    }
}

/// The error banner: what kind of error happened and its message.
#[derive(Debug)]
pub struct ErrorHandler {
    error_type: ErrorState,
    error_msg: Option<String>,
}

impl ErrorHandler {
    /// A recorded error always carries a message.
    #[verifier::type_invariant]
    spec fn inv(&self) -> bool {
        self.error_type != ErrorState::NoError ==> self.error_msg is Some
    }

    /// The kind of the recorded error (`NoError` when there is none).
    pub closed spec fn kind(&self) -> ErrorState {
        self.error_type
    }

    /// The recorded message, if any.
    pub closed spec fn message(&self) -> Option<Seq<char>> {
        match self.error_msg {
            Some(s) => Some(s@),
            None => None,
        }
    }
}

impl Default for ErrorHandler {
    fn default() -> (r: Self)
        ensures
            r.kind() == ErrorState::NoError,
            r.message() is None,
    {
        ErrorHandler { error_type: ErrorState::NoError, error_msg: None }
    }
}

impl ErrorHandler {
    /// The recorded message, if any.
    pub fn get_error_msg(&self) -> (r: Option<&str>)
        ensures
            match r {
                Some(s) => self.message() == Some(s@),
                None => self.message() is None,
            },
            self.kind() != ErrorState::NoError ==> r is Some,
    {
        proof {
            use_type_invariant(self);
        }
        match &self.error_msg {
            Some(s) => Some(s.as_str()),
            None => None,
        }
    }

    /// Whether an error is recorded, i.e. its kind is not `NoError`.
    pub fn error_exists(&self) -> (r: bool)
        ensures
            r == (self.kind() != ErrorState::NoError),
    {
        match self.error_type {
            ErrorState::NoError => false,
            _ => true,
        }
    }

    /// Records an error of the given kind with the given message.
    pub fn set_error(&mut self, error_type: ErrorState, error_msg: &str)
        ensures
            final(self).kind() == error_type,
            final(self).message() == Some(error_msg@),
    {
        self.error_msg = Some(error_msg.to_owned());
        self.error_type = error_type;
    }

    /// Forgets the recorded error.
    pub fn clear_error(&mut self)
        ensures
            final(self).kind() == ErrorState::NoError,
            final(self).message() is None,
    {
        self.error_type = ErrorState::NoError;
        self.error_msg = None;
    }
}

} // verus!
