//! Login configuration: which accounts log in, and how.

use vstd::prelude::*;

verus! {

/// The client that the bot presents itself as.
#[derive(Clone, Copy, PartialEq, Eq, Structural, Debug)]
pub enum Protocol {
    IPAD,
    AndroidPhone,
    AndroidWatch,
    MacOS,
    QiDian,
}

impl Default for Protocol {
    fn default() -> (r: Self)
        ensures
            r == Protocol::IPAD,
    {
        Protocol::IPAD
    }
}

/// Login configuration.
pub struct LoginConfig {
    /// The protocol of clients that name none.
    pub default_protocol: Protocol,
    /// Whether clients reconnect on their own.
    pub auto_reconnect: bool,
    /// The clients to log in.
    pub clients: Vec<ClientConfig>,
}

impl Default for LoginConfig {
    fn default() -> (r: Self)
        ensures
            r.default_protocol == Protocol::IPAD,
            !r.auto_reconnect,
            r.clients@.len() == 0,
    {
        LoginConfig { default_protocol: Protocol::IPAD, auto_reconnect: false, clients: Vec::new() }
    }
}

/// The configuration of one client.
pub struct ClientConfig {
    /// The account number.
    pub account: i64,
    /// The password, if logging in by password.
    pub password: Option<String>,
    /// The protocol; `None` takes the configuration's default.
    pub protocol: Option<Protocol>,
    /// Whether this client logs in at start.
    pub auto_login: bool,
}

/// The value of a yes-or-no setting that a file leaves out.
pub fn true_bool() -> (r: bool)
    ensures
        r,
{
    true
}

} // verus!
