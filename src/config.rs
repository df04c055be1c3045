use vstd::prelude::*;

verus! {

/// A top-level field of the configuration document.
#[derive(PartialEq, Eq, Structural, Clone, Copy, Debug)]
pub enum ConfigField {
    RpcUrl,
    Wallets,
}

/// Why a configuration document was not accepted.
#[derive(Debug, Clone, PartialEq, Eq)]
pub enum ParseCause {
    /// The document is not a mapping of the expected shape (the message of the
    /// document parser).
    Malformed(String),
    /// A required field is absent.
    MissingField(ConfigField),
    /// The endpoint is the empty string.
    EmptyEndpoint,
}

/// Why a configuration could not be loaded.
#[derive(Debug, Clone, PartialEq, Eq)]
pub enum ConfigError {
    /// The file could not be opened.
    NotFound { path: String, message: String },
    /// The file's content does not describe a configuration.
    ParseError { path: String, cause: ParseCause },
}

/// The endpoint to query and the addresses to query it for, in order.
#[derive(Debug, Clone, PartialEq, Eq)]
pub struct Config {
    pub rpc_url: String,
    pub wallets: Vec<String>,
}

impl Config {
    /// The endpoint is never empty; the address list may be.
    pub open spec fn wf(&self) -> bool {
        self.rpc_url@.len() > 0
    }

    /// Builds a configuration from the fields read from the document at
    /// `path`. A missing `rpc_url` is reported first, then a missing `wallets`,
    /// then an empty endpoint.
    pub fn from_fields(path: &String, rpc_url: Option<String>, wallets: Option<Vec<String>>) -> (r:
        Result<Config, ConfigError>)
        ensures
            match (rpc_url, wallets) {
                (None, _) => r == Err::<Config, ConfigError>(
                    ConfigError::ParseError {
                        path: *path,
                        cause: ParseCause::MissingField(ConfigField::RpcUrl),
                    },
                ),
                (Some(_), None) => r == Err::<Config, ConfigError>(
                    ConfigError::ParseError {
                        path: *path,
                        cause: ParseCause::MissingField(ConfigField::Wallets),
                    },
                ),
                (Some(u), Some(w)) => if u@.len() == 0 {
                    r == Err::<Config, ConfigError>(
                        ConfigError::ParseError { path: *path, cause: ParseCause::EmptyEndpoint },
                    )
                } else {
                    r == Ok::<Config, ConfigError>(Config { rpc_url: u, wallets: w })
                },
            },
            r matches Ok(c) ==> c.wf(),
    {
        match (rpc_url, wallets) {
            (None, _) => Err(
                ConfigError::ParseError {
                    path: path.clone(),
                    cause: ParseCause::MissingField(ConfigField::RpcUrl),
                },
            ),
            (Some(_), None) => Err(
                ConfigError::ParseError {
                    path: path.clone(),
                    cause: ParseCause::MissingField(ConfigField::Wallets),
                },
            ),
            (Some(u), Some(w)) => {
                if u.as_str().is_empty() {
                    Err(ConfigError::ParseError { path: path.clone(), cause: ParseCause::EmptyEndpoint })
                } else {
                    Ok(Config { rpc_url: u, wallets: w })
                }
            },
        }
    }

    /// The number of addresses to query.
    pub fn wallet_count(&self) -> (r: usize)
        ensures
            r == self.wallets@.len(),
    {
        self.wallets.len()
    }
}

} // verus!
