//! The configuration record and its loader.

use vstd::prelude::*;

use crate::error::{ErrorView, RunError};

verus! {

/// Which side of the brokerage an account lives on.
#[derive(Clone, Copy, Debug, PartialEq, Eq, Structural)]
pub enum Environment {
    /// Live trading.
    Real,
    /// Paper trading.
    Virtual,
}

/// Settings of one run, fixed once loaded.
#[derive(Clone, Debug)]
pub struct Config {
    cano: String,
    acnt_prdt_cd: String,
    environment: Environment,
    app_key: String,
    app_secret: String,
    hts_id: String,
    token: Option<String>,
    approval_key: Option<String>,
}

/// Mathematical content of a [`Config`].
pub struct ConfigView {
    pub cano: Seq<char>,
    pub acnt_prdt_cd: Seq<char>,
    pub environment: Environment,
    pub app_key: Seq<char>,
    pub app_secret: Seq<char>,
    pub hts_id: Seq<char>,
    pub token: Option<Seq<char>>,
    pub approval_key: Option<Seq<char>>,
}

/// What the brokerage expects of a configuration: both credentials are
/// present, and a token and an approval key of an earlier session come
/// together or not at all. Loading does not ask for this: a configuration
/// without it is loaded all the same.
pub open spec fn consistent(c: ConfigView) -> bool {
    &&& c.app_key.len() > 0
    &&& c.app_secret.len() > 0
    &&& (c.token is Some <==> c.approval_key is Some)
}

/// Content of an optional string.
pub open spec fn text_of(s: Option<String>) -> Option<Seq<char>> {
    match s {
        Some(t) => Some(t@),
        None => None,
    }
}

/// Copy of an optional string.
pub fn clone_text(s: &Option<String>) -> (r: Option<String>)
    ensures
        text_of(r) == text_of(*s),
{
    match s {
        Some(t) => Some(t.clone()),
        None => None,
    }
}

impl View for Config {
    type V = ConfigView;

    closed spec fn view(&self) -> ConfigView {
        ConfigView {
            cano: self.cano@,
            acnt_prdt_cd: self.acnt_prdt_cd@,
            environment: self.environment,
            app_key: self.app_key@,
            app_secret: self.app_secret@,
            hts_id: self.hts_id@,
            token: text_of(self.token),
            approval_key: text_of(self.approval_key),
        }
    }
}

impl Config {
    /// A record with exactly the given fields.
    pub fn new(
        cano: String,
        acnt_prdt_cd: String,
        environment: Environment,
        app_key: String,
        app_secret: String,
        hts_id: String,
        token: Option<String>,
        approval_key: Option<String>,
    ) -> (c: Config)
        ensures
            c@ == (ConfigView {
                cano: cano@,
                acnt_prdt_cd: acnt_prdt_cd@,
                environment,
                app_key: app_key@,
                app_secret: app_secret@,
                hts_id: hts_id@,
                token: text_of(token),
                approval_key: text_of(approval_key),
            }),
    {
        Config { cano, acnt_prdt_cd, environment, app_key, app_secret, hts_id, token, approval_key }
    }

    /// Primary account number.
    pub fn cano(&self) -> (r: &String)
        ensures
            r@ == self@.cano,
    {
        &self.cano
    }

    /// Account product code.
    pub fn acnt_prdt_cd(&self) -> (r: &String)
        ensures
            r@ == self@.acnt_prdt_cd,
    {
        &self.acnt_prdt_cd
    }

    /// Trading environment.
    pub fn environment(&self) -> (r: Environment)
        ensures
            r == self@.environment,
    {
        self.environment
    }

    /// API key.
    pub fn app_key(&self) -> (r: &String)
        ensures
            r@ == self@.app_key,
    {
        &self.app_key
    }

    /// API secret.
    pub fn app_secret(&self) -> (r: &String)
        ensures
            r@ == self@.app_secret,
    {
        &self.app_secret
    }

    /// User identifier of the desktop trading system.
    pub fn hts_id(&self) -> (r: &String)
        ensures
            r@ == self@.hts_id,
    {
        &self.hts_id
    }

    /// Whether the configuration is [`consistent`].
    pub fn is_consistent(&self) -> (r: bool)
        ensures
            r == consistent(self@),
    {
        !self.app_key.as_str().is_empty() && !self.app_secret.as_str().is_empty() && (
        self.token.is_some() == self.approval_key.is_some())
    }

    /// Access token of an earlier session, if one was configured.
    pub fn token_as_option(&self) -> (r: Option<String>)
        ensures
            text_of(r) == self@.token,
    {
        clone_text(&self.token)
    }

    /// Streaming approval key of an earlier session, if one was configured.
    pub fn approval_key_as_option(&self) -> (r: Option<String>)
        ensures
            text_of(r) == self@.approval_key,
    {
        clone_text(&self.approval_key)
    }
}

/// The record that `toml::from_str`, asked for the brokerage crate's
/// configuration schema, reads out of a text, or `None` where it rejects the
/// text. Which texts it accepts is the deserializer's matter and is not
/// stated here; what is stated is that the text alone decides.
pub uninterp spec fn toml_config(text: Seq<char>) -> Option<ConfigView>;

/// Calls `toml::from_str` for `korea_investment_api::types::config::Config`
/// and moves the fields read into a [`Config`]. Not proved, but taken on
/// trust: the call succeeds exactly where [`toml_config`] is `Some`, and then
/// returns that record. Nothing is claimed of the diagnostic.
#[verifier::external_body]
fn toml_from_str(text: &str) -> (r: Result<Config, toml::de::Error>)
    ensures
        r is Ok <==> toml_config(text@) is Some,
        r is Ok ==> r->Ok_0@ == toml_config(text@)->Some_0,
{
    let c: korea_investment_api::types::config::Config = toml::from_str(text)?;
    Ok(Config {
        cano: c.cano().clone(),
        acnt_prdt_cd: c.acnt_prdt_cd().clone(),
        environment: match c.environment() {
            korea_investment_api::types::Environment::Real => Environment::Real,
            korea_investment_api::types::Environment::Virtual => Environment::Virtual,
        },
        app_key: c.app_key().clone(),
        app_secret: c.app_secret().clone(),
        hts_id: c.hts_id().clone(),
        token: c.token().clone(),
        approval_key: c.approval_key().clone(),
    })
}

/// What loading yields for a given outcome of reading the file: the record,
/// or the kind of failure.
pub open spec fn loaded(contents: Result<Seq<char>, std::io::Error>) -> Result<
    ConfigView,
    ErrorView,
> {
    match contents {
        Err(e) => Err(ErrorView::IoError(e)),
        Ok(text) => match toml_config(text) {
            Some(c) => Ok(c),
            None => Err(ErrorView::TomlDeserializeError),
        },
    }
}

/// Content of the outcome of a load.
pub open spec fn outcome_of(r: Result<Config, RunError>) -> Result<ConfigView, ErrorView> {
    match r {
        Ok(c) => Ok(c@),
        Err(e) => Err(e@),
    }
}

/// Content of the outcome of reading a file.
pub open spec fn contents_of(r: Result<String, std::io::Error>) -> Result<
    Seq<char>,
    std::io::Error,
> {
    match r {
        Ok(t) => Ok(t@),
        Err(e) => Err(e),
    }
}

/// Path errors: a read that failed is reported as an I/O failure with the
/// read's own diagnostic, whatever the deserializer would say of any text.
pub proof fn law_read_failure_is_io(e: std::io::Error)
    ensures
        loaded(Err(e)) == Err::<ConfigView, ErrorView>(ErrorView::IoError(e)),
{
}

/// Rejected texts: a text that was read fails to load exactly where the
/// deserializer rejects it, and then as a deserialization failure, never as
/// an I/O failure.
pub proof fn law_rejected_text_is_deserialization(text: Seq<char>)
    ensures
        loaded(Ok(text)) is Err <==> toml_config(text) is None,
        loaded(Ok(text)) is Err ==> loaded(Ok(text))->Err_0 == ErrorView::TomlDeserializeError,
{
}

/// Files the deserializer's verdict under this library's failures: a record
/// is handed on as it is, a rejection becomes a `TomlDeserializeError`
/// around the deserializer's own diagnostic.
pub fn from_deserializer(parsed: Result<Config, toml::de::Error>) -> (r: Result<Config, RunError>)
    ensures
        r == (match parsed {
            Ok(c) => Ok::<Config, RunError>(c),
            Err(e) => Err(RunError::TomlDeserializeError(e)),
        }),
{
    match parsed {
        Ok(c) => Ok(c),
        Err(e) => Err(RunError::TomlDeserializeError(e)),
    }
}

/// Deserializes a configuration text. Succeeds exactly on the texts that the
/// deserializer accepts; every rejection is a `TomlDeserializeError`.
pub fn parse_config(text: &str) -> (r: Result<Config, RunError>)
    ensures
        outcome_of(r) == loaded(Ok(text@)),
{
    from_deserializer(toml_from_str(text))
}

/// Turns the outcome of reading the configuration file into a record.
///
/// A failed read is an `IoError` carrying the read's own diagnostic and the
/// text is never looked at; a text that was read is deserialized, and can
/// then only fail with a `TomlDeserializeError`.
pub fn get_config(contents: Result<String, std::io::Error>) -> (r: Result<Config, RunError>)
    ensures
        outcome_of(r) == loaded(contents_of(contents)),
{
    match contents {
        Ok(text) => parse_config(text.as_str()),
        Err(e) => Err(RunError::IoError(e)),
    }
}

} // verus!
