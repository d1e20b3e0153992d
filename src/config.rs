//! Client configuration: credential, endpoint, timeout and attempt budget.
use crate::text::{numeral, u64_text};
use core::time::Duration;
use vstd::prelude::*;

verus! {

/// The production endpoint.
pub const DEFAULT_BASE_URL: &'static str = "https://api.mailbreeze.com/v1";

/// The default request timeout, in seconds.
pub const DEFAULT_TIMEOUT_SECS: u64 = 30;

/// The default number of attempts for one call.
pub const DEFAULT_MAX_RETRIES: u32 = 3;

/// What stands in place of the credential in every rendering.
pub const REDACTION_MARKER: &'static str = "[REDACTED]";

/// How a rendering of a configuration begins, up to the credential's value.
pub const CREDENTIAL_FIELD: &'static str = "ClientConfig { api_key: ";

/// The duration of a whole number of seconds.
pub uninterp spec fn seconds(secs: u64) -> Duration;

/// The text that `Debug` gives for a duration (`30s`, `1.5s`, `100ms`).
pub uninterp spec fn duration_debug_text(d: Duration) -> Seq<char>;

/// The text that `Debug` gives for a string: quoted, with escapes.
pub uninterp spec fn str_debug_text(s: Seq<char>) -> Seq<char>;

/// Relies on core::time::Duration::from_secs: the same number of seconds
/// always makes the same duration.
pub assume_specification[ core::time::Duration::from_secs ](secs: u64) -> (r: Duration)
    ensures
        r == seconds(secs),
;

/// Relies on the `Clone` impl of core::time::Duration, a `Copy` type: the
/// clone is the same duration.
pub assume_specification[ <core::time::Duration as Clone>::clone ](d: &Duration) -> (r: Duration)
    ensures
        r == *d,
;

/// Relies on the `Debug` impl of core::time::Duration, through `format!`.
#[verifier::external_body]
fn duration_debug(d: &Duration) -> (r: String)
    ensures
        r@ == duration_debug_text(*d),
{
    format!("{:?}", d)
}

/// Printable ASCII text with no `"` and no `\`: what `Debug` writes unescaped.
pub open spec fn is_plain_text(s: Seq<char>) -> bool {
    forall|i: int|
        0 <= i < s.len() ==> ' ' <= #[trigger] s[i] && s[i] <= '~' && s[i] != '"' && s[i] != '\\'
}

/// Relies on the `Debug` impl of `str`, through `format!`: the text in
/// double quotes, where printable ASCII other than `"` and `\` is written
/// as it is.
#[verifier::external_body]
fn str_debug(s: &str) -> (r: String)
    ensures
        r@ == str_debug_text(s@),
        is_plain_text(s@) ==> r@ == seq!['"'] + s@ + seq!['"'],
{
    format!("{:?}", s)
}

/// Configuration for a client. It is built once and read by every call.
/// It has no `Debug`: `debug_string` renders it with the credential hidden.
#[derive(Clone)]
pub struct ClientConfig {
    pub api_key: String,
    pub base_url: String,
    pub timeout: Duration,
    /// The most attempts one call makes, the first included.
    pub max_retries: u32,
}

/// The rendering of a configuration: every field but the credential, which
/// stands as the redaction marker.
pub open spec fn config_rendering(base_url: Seq<char>, timeout: Duration, max_retries: u32) -> Seq<
    char,
> {
    CREDENTIAL_FIELD@ + str_debug_text(REDACTION_MARKER@) + ", base_url: "@
        + str_debug_text(base_url) + ", timeout: "@ + duration_debug_text(timeout)
        + ", max_retries: "@ + numeral(max_retries as nat) + " }"@
}

impl ClientConfig {
    /// A configuration for `api_key` with the production endpoint, a 30 s
    /// timeout and 3 attempts.
    pub fn new(api_key: &str) -> (r: Self)
        ensures
            r.api_key@ == api_key@,
            r.base_url@ == DEFAULT_BASE_URL@,
            r.timeout == seconds(DEFAULT_TIMEOUT_SECS),
            r.max_retries == DEFAULT_MAX_RETRIES,
    {
        ClientConfig {
            api_key: String::from_str(api_key),
            base_url: String::from_str(DEFAULT_BASE_URL),
            timeout: Duration::from_secs(DEFAULT_TIMEOUT_SECS),
            max_retries: DEFAULT_MAX_RETRIES,
        }
    }

    /// The same configuration with another endpoint.
    pub fn base_url(self, url: &str) -> (r: Self)
        ensures
            r.api_key == self.api_key,
            r.base_url@ == url@,
            r.timeout == self.timeout,
            r.max_retries == self.max_retries,
    {
        ClientConfig { base_url: String::from_str(url), ..self }
    }

    /// The same configuration with another timeout.
    pub fn timeout(self, timeout: Duration) -> (r: Self)
        ensures
            r.api_key == self.api_key,
            r.base_url == self.base_url,
            r.timeout == timeout,
            r.max_retries == self.max_retries,
    {
        ClientConfig { timeout, ..self }
    }

    /// The same configuration with another attempt budget.
    pub fn max_retries(self, retries: u32) -> (r: Self)
        ensures
            r.api_key == self.api_key,
            r.base_url == self.base_url,
            r.timeout == self.timeout,
            r.max_retries == retries,
    {
        ClientConfig { max_retries: retries, ..self }
    }

    /// A readable rendering of the configuration in which the credential
    /// never appears: the redaction marker stands in its place.
    pub fn debug_string(&self) -> (r: String)
        ensures
            r@ == config_rendering(self.base_url@, self.timeout, self.max_retries),
            r@.subrange(
                CREDENTIAL_FIELD@.len() as int,
                CREDENTIAL_FIELD@.len() + REDACTION_MARKER@.len() + 2int,
            ) == seq!['"'] + REDACTION_MARKER@ + seq!['"'],
    {
        proof {
            reveal_strlit("[REDACTED]");
            reveal_strlit("ClientConfig { api_key: ");
        }
        assert(is_plain_text(REDACTION_MARKER@));
        let mut r = String::from_str(CREDENTIAL_FIELD);
        r.append(str_debug(REDACTION_MARKER).as_str());
        r.append(", base_url: ");
        r.append(str_debug(self.base_url.as_str()).as_str());
        r.append(", timeout: ");
        r.append(duration_debug(&self.timeout).as_str());
        r.append(", max_retries: ");
        r.append(u64_text(self.max_retries as u64).as_str());
        r.append(" }");
        assert(r@.subrange(
            CREDENTIAL_FIELD@.len() as int,
            CREDENTIAL_FIELD@.len() + REDACTION_MARKER@.len() + 2int,
        ) =~= seq!['"'] + REDACTION_MARKER@ + seq!['"']);
        r
    }
}

/// The rendering of a configuration does not depend on its credential:
/// two configurations that differ in the credential alone render alike.
pub proof fn lemma_rendering_ignores_credential(a: ClientConfig, b: ClientConfig)
    requires
        a.base_url@ == b.base_url@,
        a.timeout == b.timeout,
        a.max_retries == b.max_retries,
    ensures
        config_rendering(a.base_url@, a.timeout, a.max_retries) == config_rendering(
            b.base_url@,
            b.timeout,
            b.max_retries,
        ),
{
}

/// Builder for a client configuration.
pub struct MailBreezeBuilder {
    pub config: ClientConfig,
}

impl MailBreezeBuilder {
    /// A builder that starts from the default configuration for `api_key`.
    pub fn new(api_key: &str) -> (r: Self)
        ensures
            r.config.api_key@ == api_key@,
            r.config.base_url@ == DEFAULT_BASE_URL@,
            r.config.timeout == seconds(DEFAULT_TIMEOUT_SECS),
            r.config.max_retries == DEFAULT_MAX_RETRIES,
    {
        MailBreezeBuilder { config: ClientConfig::new(api_key) }
    }

    /// Sets the endpoint.
    pub fn base_url(self, url: &str) -> (r: Self)
        ensures
            r.config.api_key == self.config.api_key,
            r.config.base_url@ == url@,
            r.config.timeout == self.config.timeout,
            r.config.max_retries == self.config.max_retries,
    {
        MailBreezeBuilder { config: self.config.base_url(url) }
    }

    /// Sets the request timeout.
    pub fn timeout(self, timeout: Duration) -> (r: Self)
        ensures
            r.config.api_key == self.config.api_key,
            r.config.base_url == self.config.base_url,
            r.config.timeout == timeout,
            r.config.max_retries == self.config.max_retries,
    {
        MailBreezeBuilder { config: self.config.timeout(timeout) }
    }

    /// Sets the attempt budget.
    pub fn max_retries(self, retries: u32) -> (r: Self)
        ensures
            r.config.api_key == self.config.api_key,
            r.config.base_url == self.config.base_url,
            r.config.timeout == self.config.timeout,
            r.config.max_retries == retries,
    {
        MailBreezeBuilder { config: self.config.max_retries(retries) }
    }

    /// The configuration built so far.
    pub fn into_config(self) -> (r: ClientConfig)
        ensures
            r == self.config,
    {
        self.config
    }
}

} // verus!
