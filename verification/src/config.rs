//! What the relay is configured with: the two secrets of the webhook and the
//! address it listens on. The program reads the values once, at startup, and
//! hands the result to every request.

use vstd::prelude::*;

verus! {

/// The port that the relay listens on unless another one is configured.
pub const DEFAULT_PORT: u16 = 23498;

/// The name of the setting that holds the identifier of the webhook.
pub const ID: &'static str = "id";

/// The name of the setting that holds the token of the webhook.
pub const TOKEN: &'static str = "token";

/// The name of the setting that holds the address to listen on.
pub const ADDRESS: &'static str = "address";

/// The name of the setting that holds the port to listen on.
pub const PORT: &'static str = "port";

/// Why no configuration could be made.
#[derive(Clone, Copy, Debug, PartialEq, Eq, Structural)]
pub enum ConfigError {
    /// The identifier of the webhook is not set.
    MissingId,
    /// The token of the webhook is not set.
    MissingToken,
}

impl ConfigError {
    /// The name of the setting that is missing.
    pub fn setting(&self) -> (name: &'static str)
        ensures
            name@ == match *self {
                ConfigError::MissingId => ID@,
                ConfigError::MissingToken => TOKEN@,
            },
    {
        match self {
            ConfigError::MissingId => ID,
            ConfigError::MissingToken => TOKEN,
        }
    }
}

/// The two secrets that name a webhook.
#[derive(Clone, Debug, PartialEq, Eq)]
pub struct Credentials {
    pub id: String,
    pub token: String,
}

/// The address of the webhook that `id` and `token` name.
pub open spec fn webhook_url(id: Seq<char>, token: Seq<char>) -> Seq<char> {
    "https://discord.com/api/webhooks/"@ + id + "/"@ + token
}

impl Credentials {
    /// The credentials made of `id` and `token`, where both are set. A
    /// missing identifier is reported before a missing token.
    pub fn load(id: Option<String>, token: Option<String>) -> (r: Result<Credentials, ConfigError>)
        ensures
            match r {
                Ok(c) => id == Some(c.id) && token == Some(c.token),
                Err(ConfigError::MissingId) => id is None,
                Err(ConfigError::MissingToken) => id is Some && token is None,
            },
    {
        match id {
            None => Err(ConfigError::MissingId),
            Some(id) => match token {
                None => Err(ConfigError::MissingToken),
                Some(token) => Ok(Credentials { id, token }),
            },
        }
    }

    /// Writes the address that messages are posted to.
    pub fn url(&self) -> (s: String)
        ensures
            s@ == webhook_url(self.id@, self.token@),
    {
        let mut s = String::from_str("https://discord.com/api/webhooks/");
        s.append(self.id.as_str());
        s.append("/");
        s.append(self.token.as_str());
        s
    }
}

/// Where the relay listens: an IPv4 address and a port.
#[derive(Clone, Copy, Debug, PartialEq, Eq)]
pub struct Listener {
    pub address: [u8; 4],
    pub port: u16,
}

impl Listener {
    /// The listener on `address` and `port`, where they are set: every
    /// interface stands in for a missing address, `DEFAULT_PORT` for a
    /// missing port.
    pub fn load(address: Option<[u8; 4]>, port: Option<u16>) -> (l: Listener)
        ensures
            l.address@ == match address {
                Some(a) => a@,
                None => seq![0u8, 0u8, 0u8, 0u8],
            },
            l.port == match port {
                Some(p) => p,
                None => DEFAULT_PORT,
            },
    {
        let address = match address {
            Some(a) => a,
            None => [0, 0, 0, 0],
        };
        let port = match port {
            Some(p) => p,
            None => DEFAULT_PORT,
        };
        Listener { address, port }
    }
}

/// The configuration of a relay.
#[derive(Clone, Debug, PartialEq, Eq)]
pub struct Config {
    pub credentials: Credentials,
    pub listener: Listener,
}

impl Config {
    /// The configuration made of the four settings: as `Credentials::load`
    /// for the secrets, which must be set, and as `Listener::load` for
    /// address and port, which need not be.
    pub fn load(
        id: Option<String>,
        token: Option<String>,
        address: Option<[u8; 4]>,
        port: Option<u16>,
    ) -> (r: Result<Config, ConfigError>)
        ensures
            match r {
                Ok(c) => {
                    &&& id == Some(c.credentials.id)
                    &&& token == Some(c.credentials.token)
                    &&& c.listener.address@ == match address {
                        Some(a) => a@,
                        None => seq![0u8, 0u8, 0u8, 0u8],
                    }
                    &&& c.listener.port == match port {
                        Some(p) => p,
                        None => DEFAULT_PORT,
                    }
                },
                Err(ConfigError::MissingId) => id is None,
                Err(ConfigError::MissingToken) => id is Some && token is None,
            },
    {
        match Credentials::load(id, token) {
            Ok(credentials) => Ok(Config { credentials, listener: Listener::load(address, port) }),
            Err(e) => Err(e),
        }
    }
}

} // verus!
