//! The handle factory: how the pool comes by its clients.

use crate::error::Error;
use clickhouse::Client;
use vstd::prelude::*;

verus! {

/// `clickhouse::Client`, the handle that the pool lends out. The pool never
/// looks inside one: it only stores it and hands it on.
#[verifier::external_type_specification]
#[verifier::external_body]
pub struct ExClient(Client);

/// The server address that a client holds: what `Client::with_url` stored in
/// it last.
pub uninterp spec fn endpoint(client: Client) -> Seq<char>;

/// Calls `Default::default` of `clickhouse::Client`, which builds a client
/// with a transport of its own and connects to nothing. Nothing is claimed of
/// the client that comes back: no two calls return the same one.
#[verifier::external_body]
fn default_client() -> (client: Client) {
    Client::default()
}

/// Calls `clickhouse::Client::with_url`, which stores `url` in the client as
/// the address of the server and hands the client back.
#[verifier::external_body]
fn with_url(client: Client, url: &str) -> (pointed: Client)
    ensures
        endpoint(pointed) == url@,
{
    client.with_url(url)
}

/// Creates one client for the server at `params`.
///
/// Every call makes a new client. Building one opens no connection, so this
/// never fails.
pub(crate) fn connect(params: &str) -> (r: Result<Client, Error>)
    ensures
        r matches Ok(client) && endpoint(client) == params@,
{
    Ok(with_url(default_client(), params))
}

} // verus!
