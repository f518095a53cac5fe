//! The boundary to the Postgres driver: the opaque driver types, and the
//! connection-string parser that configuration validation relies on.

use std::str::FromStr;
use vstd::prelude::*;

verus! {

#[verifier::external_type_specification]
#[verifier::external_body]
pub struct ExConfig(tokio_postgres::config::Config);

#[verifier::external_type_specification]
#[verifier::external_body]
pub struct ExError(tokio_postgres::error::Error);

#[verifier::external_type_specification]
#[verifier::external_body]
pub struct ExRow(tokio_postgres::row::Row);

/// Whether `s` is a well-formed connection string, in the driver's key/value
/// or URL syntax. The parse is a pure function of the string, so its outcome
/// can be given a name; nothing else is claimed of the parsed value, which
/// stays opaque.
pub uninterp spec fn config_parse_ok(s: Seq<char>) -> bool;

/// Relies on `<tokio_postgres::Config as FromStr>::from_str`: a synchronous
/// parse of the connection string that performs no I/O and whose outcome
/// depends on the string alone.
#[verifier::external_body]
pub(crate) fn parse_config(path: &str) -> (r: Result<
    tokio_postgres::config::Config,
    tokio_postgres::error::Error,
>)
    ensures
        r is Ok <==> config_parse_ok(path@),
{
    tokio_postgres::config::Config::from_str(path)
}

} // verus!
