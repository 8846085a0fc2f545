//! PostgreSQL: how a connection is described, and how it is opened through
//! a factory the caller supplies.

use vstd::prelude::*;
use vstd::string::*;
use postgres::{Client, Error};
use crate::config::{Config, PostgresConfig};
use crate::error::{RotationError, RotationErrorView};
use crate::text::{decimal, push_decimal};

verus! {

/// A connection to PostgreSQL.
#[verifier::external_type_specification]
#[verifier::external_body]
pub struct ExClient(Client);

/// The reason PostgreSQL, or the driver, gave for a failure.
#[verifier::external_type_specification]
#[verifier::external_body]
pub struct ExError(Error);

/// Opens connections. The rotation itself never opens one: it describes the
/// connection and leaves the opening to a factory, so that the caller decides
/// what a connection is.
pub trait ClientFactory {
    /// Whether `answer` is something this factory may give when it is asked
    /// for the connection that `connection_string` describes. A factory that
    /// says nothing about itself may answer anything.
    open spec fn answers(&self, connection_string: Seq<char>, answer: Result<Client, Error>) -> bool {
        true
    }

    fn create_client(&self, connection_string: &str) -> (answer: Result<Client, Error>)
        ensures
            self.answers(connection_string@, answer),
    ;
}

/// The connection string for a user of a database.
pub open spec fn connection_string(
    config: PostgresConfig,
    username: Seq<char>,
    password: Seq<char>,
) -> Seq<char> {
    "host="@ + config.host@ + " port="@ + decimal(config.port as nat) + " dbname="@
        + config.database@ + " user="@ + username + " password="@ + password
}

/// The text shown when no connection could be opened.
pub open spec fn connection_failed_text(detail: Seq<char>) -> Seq<char> {
    "Failed to build PostgreSQL connection: "@ + detail
}

/// Whether `error` reports that no connection could be opened.
pub open spec fn is_connection_failure(error: RotationErrorView) -> bool {
    exists|detail: Seq<char>|
        error == (RotationErrorView::DatabaseError { message: connection_failed_text(detail) })
}

/// Whether `connection` is what the caller gets for the `answer` of a
/// factory: the same connection, or a failure to connect when there is none.
pub open spec fn is_connection_outcome(
    answer: Result<Client, Error>,
    connection: Result<Client, RotationError>,
) -> bool {
    match answer {
        Ok(client) => connection == Ok::<Client, RotationError>(client),
        Err(_) => connection matches Err(error) && is_connection_failure(error@),
    }
}

/// `Debug` for `postgres::Error`: the kind of the failure and its cause.
#[verifier::external_body]
fn describe(error: &Error) -> String {
    format!("{:?}", error)
}

/// The PostgreSQL instance whose roles are rotated.
#[derive(Debug)]
pub struct PostgresClient {
    pub postgres_config: PostgresConfig,
}

impl PostgresClient {
    pub fn init(config: &Config) -> (client: PostgresClient)
        ensures
            client.postgres_config == config.postgres,
    {
        PostgresClient { postgres_config: config.postgres.clone() }
    }

    /// The connection string for `username`, who proves their identity with
    /// `password`.
    pub fn connection_string(&self, username: &str, password: &str) -> (text: String)
        ensures
            text@ == connection_string(self.postgres_config, username@, password@),
    {
        let mut text = String::from_str("host=");
        text.append(self.postgres_config.host.as_str());
        text.append(" port=");
        push_decimal(&mut text, self.postgres_config.port);
        text.append(" dbname=");
        text.append(self.postgres_config.database.as_str());
        text.append(" user=");
        text.append(username);
        text.append(" password=");
        text.append(password);
        text
    }

    /// The failure to report when the factory could not open a connection.
    pub fn connection_failed(detail: &str) -> (error: RotationError)
        ensures
            error@ == (RotationErrorView::DatabaseError { message: connection_failed_text(detail@) }),
    {
        let mut message = String::from_str("Failed to build PostgreSQL connection: ");
        message.append(detail);
        RotationError::DatabaseError { message }
    }

    /// Asks `client_factory` for a connection as `username`. The factory is
    /// handed [`PostgresClient::connection_string`] of the two, and what it
    /// answers decides: its connection is passed on, its refusal is wrapped
    /// with [`PostgresClient::connection_failed`].
    pub fn connect_for_user<F: ClientFactory + ?Sized>(
        &self,
        client_factory: &F,
        username: String,
        password: String,
    ) -> (connection: Result<Client, RotationError>)
        ensures
            exists|answer: Result<Client, Error>|
                {
                    &&& #[trigger] client_factory.answers(
                        connection_string(self.postgres_config, username@, password@),
                        answer,
                    )
                    &&& is_connection_outcome(answer, connection)
                },
    {
        let connection_string = self.connection_string(username.as_str(), password.as_str());
        let answer = client_factory.create_client(connection_string.as_str());
        Self::connection_outcome(answer)
    }

    /// What the caller gets for the answer of a factory: the connection as
    /// it is, or the failure that wraps the reason the factory gave.
    pub fn connection_outcome(answer: Result<Client, Error>) -> (connection: Result<
        Client,
        RotationError,
    >)
        ensures
            is_connection_outcome(answer, connection),
    {
        match answer {
            Ok(client) => Ok(client),
            Err(error) => {
                let detail = describe(&error);
                Err(Self::connection_failed(detail.as_str()))
            },
        }
    }
}

} // verus!
