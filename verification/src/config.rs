//! Configuration of the email gateway, resolved from values the
//! caller reads out of the process environment. Three values are
//! required; the recipient defaults to the sender's address.
use vstd::prelude::*;
use vstd::string::*;

verus! {

/// The resolved sender identity and credential for one send attempt.
#[derive(Debug)]
pub struct GatewayConfig {
    pub api_key: String,
    pub sender_email: String,
    pub sender_name: String,
    pub recipient_email: String,
}

/// The required environment value that was found missing.
#[derive(Clone, Copy, Debug, PartialEq, Eq, Structural)]
pub enum ConfigError {
    MissingApiKey,
    MissingSenderEmail,
    MissingSenderName,
}

impl ConfigError {
    /// The error text reported for each missing value.
    pub fn message(&self) -> (r: &'static str)
        ensures
            *self is MissingApiKey ==> r@ == "BREVO_API_KEY environment variable not set"@,
            *self is MissingSenderEmail ==> r@
                == "BREVO_SENDER_EMAIL environment variable not set"@,
            *self is MissingSenderName ==> r@ == "BREVO_SENDER_NAME environment variable not set"@,
    {
        match self {
            ConfigError::MissingApiKey => "BREVO_API_KEY environment variable not set",
            ConfigError::MissingSenderEmail => "BREVO_SENDER_EMAIL environment variable not set",
            ConfigError::MissingSenderName => "BREVO_SENDER_NAME environment variable not set",
        }
    }
}

/// Resolve the gateway configuration from the optional environment
/// values, in the order the service reads them: the API key, then the
/// sender address, then the sender name; an absent recipient address
/// falls back to the sender address.
pub fn resolve_config(
    api_key: Option<String>,
    sender_email: Option<String>,
    sender_name: Option<String>,
    recipient_email: Option<String>,
) -> (r: Result<GatewayConfig, ConfigError>)
    ensures
        r is Ok <==> api_key is Some && sender_email is Some && sender_name is Some,
        r matches Ok(c) ==> {
            &&& c.api_key == api_key->Some_0
            &&& c.sender_email == sender_email->Some_0
            &&& c.sender_name == sender_name->Some_0
            &&& c.recipient_email == if recipient_email is Some {
                recipient_email->Some_0
            } else {
                sender_email->Some_0
            }
        },
        r matches Err(e) ==> e == (if api_key is None {
            ConfigError::MissingApiKey
        } else if sender_email is None {
            ConfigError::MissingSenderEmail
        } else {
            ConfigError::MissingSenderName
        }),
{
    let api_key = match api_key {
        Some(k) => k,
        None => {
            return Err(ConfigError::MissingApiKey);
        },
    };
    let sender_email = match sender_email {
        Some(e) => e,
        None => {
            return Err(ConfigError::MissingSenderEmail);
        },
    };
    let sender_name = match sender_name {
        Some(n) => n,
        None => {
            return Err(ConfigError::MissingSenderName);
        },
    };
    let recipient_email = match recipient_email {
        Some(r) => r,
        None => sender_email.clone(),
    };
    Ok(GatewayConfig { api_key, sender_email, sender_name, recipient_email })
}

} // verus!
