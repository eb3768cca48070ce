//! NATS delivery: the connection settings of a hook and their checks.
use vstd::prelude::*;
use crate::patterns::{regex_matches, CompiledRegex};
use crate::hook::events::{event_type_name, EventType};
use crate::text::{concat_str, decimal, u64_to_decimal};

verus! {

/// How a hook authenticates to the NATS server.
#[derive(Clone, Copy, Debug, Hash, PartialEq, Eq, Structural)]
pub enum NatsAuthType {
    /// No authentication.
    NoAuth,
    /// User name and password.
    Password,
    /// A token.
    Token,
}

impl Default for NatsAuthType {
    fn default() -> (r: NatsAuthType)
        ensures
            r == NatsAuthType::NoAuth,
    {
        NatsAuthType::NoAuth
    }
}

/// Where a hook publishes its events.
#[derive(Clone, Debug, Default, Hash, PartialEq, Eq)]
pub struct NatsConfig {
    pub host: String,
    pub port: u16,
    pub auth_type: NatsAuthType,
    pub token: Option<String>,
    pub username: Option<String>,
    pub password: Option<String>,
    /// The JetStream stream that receives the events.
    pub stream_name: String,
    /// The subject prefix under which the events are published.
    pub namespace: String,
}

/// Why a NATS configuration is refused.
#[derive(Clone, Debug, PartialEq, Eq)]
pub enum NatsError {
    /// The namespace must start with a letter and hold only letters, digits
    /// and underscores.
    InvalidNamespace,
    /// Password authentication needs both a user name and a password.
    PasswordCredentialsMissing,
    /// Token authentication needs a token.
    TokenMissing,
}

/// How a connection to the NATS server authenticates.
#[derive(Clone, Debug, PartialEq, Eq)]
pub enum NatsCredentials {
    Anonymous,
    UserPassword(String, String),
    Token(String),
}

/// A credential that the authentication type needs is missing.
#[derive(Clone, Copy, Debug, PartialEq, Eq, Structural)]
pub enum NatsCredentialError {
    UsernameMissing,
    PasswordMissing,
    TokenMissing,
}

/// The rule that a namespace must match.
pub open spec fn namespace_pattern() -> Seq<char> {
    "^[a-zA-Z][a-zA-Z0-9_]*$"@
}

/// The namespace is checked first, then the credentials that the
/// authentication type needs.
pub open spec fn nats_config_check(c: NatsConfig) -> Result<(), NatsError> {
    if !regex_matches(namespace_pattern(), c.namespace@) {
        Err(NatsError::InvalidNamespace)
    } else {
        match c.auth_type {
            NatsAuthType::NoAuth => Ok(()),
            NatsAuthType::Password => if c.username is None || c.password is None {
                Err(NatsError::PasswordCredentialsMissing)
            } else {
                Ok(())
            },
            NatsAuthType::Token => if c.token is None {
                Err(NatsError::TokenMissing)
            } else {
                Ok(())
            },
        }
    }
}

impl NatsConfig {
    pub fn validate(&self) -> (r: Result<(), NatsError>)
        ensures
            r == nats_config_check(*self),
    {
        let pattern = "^[a-zA-Z][a-zA-Z0-9_]*$";
        let re = CompiledRegex::new(pattern).unwrap();
        if !re.is_match(self.namespace.as_str()) {
            return Err(NatsError::InvalidNamespace);
        }
        match self.auth_type {
            NatsAuthType::NoAuth => {},
            NatsAuthType::Password => {
                if self.username.is_none() || self.password.is_none() {
                    return Err(NatsError::PasswordCredentialsMissing);
                }
            },
            NatsAuthType::Token => {
                if self.token.is_none() {
                    return Err(NatsError::TokenMissing);
                }
            },
        }
        Ok(())
    }

    /// The credentials to connect with, as the authentication type asks.
    pub fn credentials(&self) -> (r: Result<NatsCredentials, NatsCredentialError>)
        ensures
            match self.auth_type {
                NatsAuthType::NoAuth => r == Ok::<NatsCredentials, NatsCredentialError>(
                    NatsCredentials::Anonymous,
                ),
                NatsAuthType::Password => match (self.username, self.password) {
                    (Some(u), Some(p)) => r == Ok::<NatsCredentials, NatsCredentialError>(
                        NatsCredentials::UserPassword(u, p),
                    ),
                    (None, _) => r == Err::<NatsCredentials, NatsCredentialError>(
                        NatsCredentialError::UsernameMissing,
                    ),
                    (Some(_), None) => r == Err::<NatsCredentials, NatsCredentialError>(
                        NatsCredentialError::PasswordMissing,
                    ),
                },
                NatsAuthType::Token => match self.token {
                    Some(t) => r == Ok::<NatsCredentials, NatsCredentialError>(
                        NatsCredentials::Token(t),
                    ),
                    None => r == Err::<NatsCredentials, NatsCredentialError>(
                        NatsCredentialError::TokenMissing,
                    ),
                },
            },
    {
        match self.auth_type {
            NatsAuthType::NoAuth => Ok(NatsCredentials::Anonymous),
            NatsAuthType::Password => {
                let u = match &self.username {
                    Some(u) => u.clone(),
                    None => return Err(NatsCredentialError::UsernameMissing),
                };
                let p = match &self.password {
                    Some(p) => p.clone(),
                    None => return Err(NatsCredentialError::PasswordMissing),
                };
                Ok(NatsCredentials::UserPassword(u, p))
            },
            NatsAuthType::Token => match &self.token {
                Some(t) => Ok(NatsCredentials::Token(t.clone())),
                None => Err(NatsCredentialError::TokenMissing),
            },
        }
    }

    /// The URL of the server: `nats://<host>:<port>`.
    pub fn url(&self) -> (r: String)
        ensures
            r@ == "nats://"@ + self.host@ + ":"@ + decimal(self.port as nat),
    {
        let mut r = concat_str("nats://", self.host.as_str());
        r.append(":");
        let port = u64_to_decimal(self.port as u64);
        r.append(port.as_str());
        r
    }

    /// The subject under which an event of kind `e` is published:
    /// `<namespace>.<kind>`.
    pub fn event_subject(&self, e: EventType) -> (r: String)
        ensures
            r@ == self.namespace@ + "."@ + event_type_name(e),
    {
        let mut r = concat_str(self.namespace.as_str(), ".");
        let name = e.to_string();
        r.append(name.as_str());
        r
    }

    /// The subjects of the stream: everything under the namespace.
    pub fn stream_subject(&self) -> (r: String)
        ensures
            r@ == self.namespace@ + ".>"@,
    {
        concat_str(self.namespace.as_str(), ".>")
    }
}

fn copy_text(s: &Option<String>) -> (r: Option<String>)
    ensures
        r == *s,
{
    match s {
        Some(t) => Some(t.clone()),
        None => None,
    }
}

pub fn copy_nats_config(c: &NatsConfig) -> (r: NatsConfig)
    ensures
        r == *c,
{
    NatsConfig {
        host: c.host.clone(),
        port: c.port,
        auth_type: c.auth_type,
        token: copy_text(&c.token),
        username: copy_text(&c.username),
        password: copy_text(&c.password),
        stream_name: c.stream_name.clone(),
        namespace: c.namespace.clone(),
    }
}

/// Every event is published under a subject that the hook's stream captures:
/// the namespace, a dot, and one non-empty token without dots (the stream takes
/// `<namespace>.>`).
pub proof fn lemma_events_reach_the_stream(c: NatsConfig, e: EventType)
    ensures
        ({
            let token = event_type_name(e);
            &&& token.len() > 0
            &&& forall|i: int| 0 <= i < token.len() ==> token[i] != '.'
            &&& c.namespace@ + "."@ + token == (c.namespace@ + ".>"@).drop_last() + token
        }),
{
    reveal_strlit(".>");
    reveal_strlit(".");
    assert((c.namespace@ + ".>"@).drop_last() =~= c.namespace@ + "."@);
    match e {
        EventType::EmailAddedToFolder => reveal_strlit("EmailAddedToFolder"),
        EventType::EmailFlagsChanged => reveal_strlit("EmailFlagsChanged"),
        EventType::EmailSentSuccess => reveal_strlit("EmailSentSuccess"),
        EventType::EmailSendingError => reveal_strlit("EmailSendingError"),
        EventType::UIDValidityChange => reveal_strlit("UIDValidityChange"),
        EventType::MailboxDeletion => reveal_strlit("MailboxDeletion"),
        EventType::MailboxCreation => reveal_strlit("MailboxCreation"),
        EventType::AccountFirstSyncCompleted => reveal_strlit("AccountFirstSyncCompleted"),
        EventType::EmailBounce => reveal_strlit("EmailBounce"),
        EventType::EmailFeedBackReport => reveal_strlit("EmailFeedBackReport"),
        EventType::EmailOpened => reveal_strlit("EmailOpened"),
        EventType::EmailLinkClicked => reveal_strlit("EmailLinkClicked"),
    }
}

/// Builds NATS connections from one configuration.
#[derive(Debug)]
pub struct NatsConnectionManager {
    pub config: NatsConfig,
}

impl NatsConnectionManager {
    pub fn new(config: &NatsConfig) -> (r: NatsConnectionManager)
        ensures
            r.config == *config,
    {
        NatsConnectionManager { config: copy_nats_config(config) }
    }
}

} // verus!
