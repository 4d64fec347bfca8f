//! The settings of the service.

use vstd::prelude::*;
use crate::text::{decimal, push_decimal};

verus! {

/// The settings that the service starts with.
#[derive(Clone, Debug, PartialEq, Eq)]
pub struct StaticConfiguration {
    pub database: DatabaseConfiguration,
    pub application_port: u16,
}

/// Where the store is and how to log in to it.
#[derive(Clone, Debug, PartialEq, Eq)]
pub struct DatabaseConfiguration {
    pub username: String,
    pub password: String,
    pub port: u16,
    pub host: String,
    pub database_name: String,
}

/// The address of a store: `mongodb://`, the user, a colon, the password,
/// an at sign, the host, a colon, and the port in decimal.
pub open spec fn connection_text(
    username: Seq<char>,
    password: Seq<char>,
    host: Seq<char>,
    port: u16,
) -> Seq<char> {
    "mongodb://"@ + username + ":"@ + password + "@"@ + host + ":"@ + decimal(port as nat)
}

impl DatabaseConfiguration {
    /// The address under which the store is reached. The parts are put in
    /// as they are, none of them escaped.
    pub fn connection_string(&self) -> (s: String)
        ensures
            s@ == connection_text(self.username@, self.password@, self.host@, self.port),
    {
        let mut s = String::from_str("mongodb://");
        s.append(self.username.as_str());
        s.append(":");
        s.append(self.password.as_str());
        s.append("@");
        s.append(self.host.as_str());
        s.append(":");
        push_decimal(&mut s, self.port as u64);
        s
    }
}

} // verus!
