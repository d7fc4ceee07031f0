//! What can go wrong in the pool.

use clickhouse::error::Error as ClickhouseError;
use tokio::sync::AcquireError;
use vstd::prelude::*;
use vstd::std_specs::convert::FromSpecImpl;
use vstd::string::StringExecFns;
use vstd::string::to_string_from_display_ensures;

verus! {

/// `clickhouse::error::Error`, carried as the cause of a failed connection.
#[verifier::external_type_specification]
#[verifier::external_body]
pub struct ExClickhouseError(ClickhouseError);

/// Represents errors that can occur in the connection pool.
#[derive(Debug)]
pub enum Error {
    /// Error occurred while acquiring a semaphore permit.
    AcquireError,
    /// Error occurred while creating or connecting the ClickHouse client.
    Clickhouse(ClickhouseError),
    /// An unknown error occurred.
    Unknown,
}

impl From<ClickhouseError> for Error {
    fn from(err: ClickhouseError) -> (r: Error) {
        Error::Clickhouse(err)
    }
}

impl FromSpecImpl<ClickhouseError> for Error {
    open spec fn obeys_from_spec() -> bool {
        true
    }

    open spec fn from_spec(err: ClickhouseError) -> Error {
        Error::Clickhouse(err)
    }
}

impl From<AcquireError> for Error {
    fn from(_err: AcquireError) -> (r: Error) {
        Error::AcquireError
    }
}

impl FromSpecImpl<AcquireError> for Error {
    open spec fn obeys_from_spec() -> bool {
        true
    }

    open spec fn from_spec(_err: AcquireError) -> Error {
        Error::AcquireError
    }
}

impl Error {
    /// The error as a line of text for a person to read. For a `Clickhouse`
    /// error the line ends with what the cause displays as.
    pub fn message(&self) -> (text: String)
        ensures
            match *self {
                Error::AcquireError => text@ == "Failed to acquire a semaphore permit"@,
                Error::Clickhouse(err) => exists|cause: String|
                    #[trigger] to_string_from_display_ensures(&err, cause) && text@
                        == "ClickHouse error: "@ + cause@,
                Error::Unknown => text@ == "An unknown error occurred"@,
            },
    {
        match self {
            Error::AcquireError => String::from_str("Failed to acquire a semaphore permit"),
            Error::Clickhouse(err) => {
                let cause = err.to_string();
                let mut text = String::from_str("ClickHouse error: ");
                text.append(cause.as_str());
                text
            },
            Error::Unknown => String::from_str("An unknown error occurred"),
        }
    }

    /// The underlying cause, which only a `Clickhouse` error has.
    pub fn source(&self) -> (cause: Option<&ClickhouseError>)
        ensures
            match *self {
                Error::Clickhouse(err) => cause == Some(&err),
                _ => cause is None,
            },
    {
        match self {
            Error::Clickhouse(err) => Some(err),
            _ => None,
        }
    }
}

} // verus!
