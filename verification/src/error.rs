//! The errors a request can end in, and the HTTP status each one is answered with.

use vstd::prelude::*;

verus! {

/// Why a request was refused.
#[derive(Debug)]
pub enum AppError {
    /// The request itself is malformed; the message says how.
    Validation(String),
    /// Registration with an email address that already has an account.
    EmailTaken,
    /// Unknown email address or wrong password.
    InvalidCredentials,
    /// The authenticated user no longer exists.
    NotFound,
    /// A fault on the server's side; the message is for the log.
    Internal(String),
}

/// What an [`AppError`] says, with its messages as character sequences.
pub enum Failure {
    Validation(Seq<char>),
    EmailTaken,
    InvalidCredentials,
    NotFound,
    Internal(Seq<char>),
}

impl View for AppError {
    type V = Failure;

    open spec fn view(&self) -> Failure {
        match self {
            AppError::Validation(m) => Failure::Validation(m@),
            AppError::EmailTaken => Failure::EmailTaken,
            AppError::InvalidCredentials => Failure::InvalidCredentials,
            AppError::NotFound => Failure::NotFound,
            AppError::Internal(m) => Failure::Internal(m@),
        }
    }
}

/// The HTTP status that answers a failure.
pub open spec fn status_for(f: Failure) -> u16 {
    match f {
        Failure::Validation(_) => 400,
        Failure::EmailTaken => 409,
        Failure::InvalidCredentials => 401,
        Failure::NotFound => 404,
        Failure::Internal(_) => 500,
    }
}

impl AppError {
    /// The HTTP status this error is answered with.
    pub fn http_status(&self) -> (s: u16)
        ensures
            s == status_for(self@),
    {
        match self {
            AppError::Validation(_) => 400,
            AppError::EmailTaken => 409,
            AppError::InvalidCredentials => 401,
            AppError::NotFound => 404,
            AppError::Internal(_) => 500,
        }
    }

    /// The message shown to the client: the validation message, or a fixed
    /// text for the other kinds (an internal message stays on the server).
    pub fn client_message(&self) -> (m: String)
        ensures
            m@ == client_message_of(self@),
    {
        match self {
            AppError::Validation(msg) => msg.clone(),
            AppError::EmailTaken => String::from_str("Email already taken"),
            AppError::InvalidCredentials => String::from_str("Invalid credentials"),
            AppError::NotFound => String::from_str("Not found"),
            AppError::Internal(_) => String::from_str("Internal server error"),
        }
    }
}

/// The text a client sees for a failure.
pub open spec fn client_message_of(f: Failure) -> Seq<char> {
    match f {
        Failure::Validation(m) => m,
        Failure::EmailTaken => "Email already taken"@,
        Failure::InvalidCredentials => "Invalid credentials"@,
        Failure::NotFound => "Not found"@,
        Failure::Internal(_) => "Internal server error"@,
    }
}

} // verus!
