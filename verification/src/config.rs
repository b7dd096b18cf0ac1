//! What the service is started with.

use crate::text::{decimal, push_decimal_digits};
use vstd::prelude::*;

verus! {

/// The port that the service listens on where none is given.
pub const DEFAULT_PORT: u16 = 8000;

/// The arguments of the service.
#[derive(Debug, Clone, PartialEq, Eq)]
pub struct Args {
    pub database_url: String,
    pub port: u16,
}

/// The address that the service listens on: every interface, at the port given.
pub fn bind_address(port: u16) -> (address: String)
    ensures
        address@ == "0.0.0.0:"@ + decimal(port as int),
{
    let mut address = String::new();
    address.append("0.0.0.0:");
    push_decimal_digits(&mut address, port as u64);
    address
}

/// The domain of the address that notifications are sent from.
pub const EMAIL_DOMAIN: &'static str = "jrcichra.dev";

/// The address that notifications are sent from: the name of the mail
/// account at the domain of the service.
pub fn sender_address(username: &str) -> (address: String)
    ensures
        address@ == username@ + "@"@ + EMAIL_DOMAIN@,
{
    let mut address = String::new();
    address.append(username);
    address.append("@");
    address.append(EMAIL_DOMAIN);
    address
}

} // verus!
