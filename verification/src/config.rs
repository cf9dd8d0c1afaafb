//! The server's configuration, from the variables of its environment.

use vstd::prelude::*;
use vstd::string::*;

use crate::acme::opt_view;
use crate::text;

verus! {

/// Where certificates are kept, if no other place is configured.
pub const DEFAULT_CERT_DIR: &'static str = "certs/";

/// The address on which the server listens, if no other is configured.
pub const DEFAULT_HOST: &'static str = "0.0.0.0";

/// The port on which the server listens, if no other is configured.
pub const DEFAULT_PORT: &'static str = "443";

/// The variables of the environment, each where it is set to a text.
#[derive(Debug)]
pub struct Environment {
    pub domain: Option<String>,
    pub email: Option<String>,
    pub cert_dir: Option<String>,
    pub use_staging: Option<String>,
    pub host: Option<String>,
    pub port: Option<String>,
}

/// The mathematical content of [`Environment`].
pub struct EnvironmentView {
    pub domain: Option<Seq<char>>,
    pub email: Option<Seq<char>>,
    pub cert_dir: Option<Seq<char>>,
    pub use_staging: Option<Seq<char>>,
    pub host: Option<Seq<char>>,
    pub port: Option<Seq<char>>,
}

impl View for Environment {
    type V = EnvironmentView;

    open spec fn view(&self) -> EnvironmentView {
        EnvironmentView {
            domain: opt_view(self.domain),
            email: opt_view(self.email),
            cert_dir: opt_view(self.cert_dir),
            use_staging: opt_view(self.use_staging),
            host: opt_view(self.host),
            port: opt_view(self.port),
        }
    }
}

/// The server's configuration.
#[derive(Debug)]
pub struct Config {
    pub domain: String,
    pub email: String,
    pub cert_dir: String,
    pub use_staging: bool,
    pub host: String,
    pub port: u16,
}

/// The mathematical content of [`Config`].
pub struct ConfigView {
    pub domain: Seq<char>,
    pub email: Seq<char>,
    pub cert_dir: Seq<char>,
    pub use_staging: bool,
    pub host: Seq<char>,
    pub port: u16,
}

impl View for Config {
    type V = ConfigView;

    open spec fn view(&self) -> ConfigView {
        ConfigView {
            domain: self.domain@,
            email: self.email@,
            cert_dir: self.cert_dir@,
            use_staging: self.use_staging,
            host: self.host@,
            port: self.port,
        }
    }
}

/// Why there is no configuration.
#[derive(Clone, Copy, Debug, PartialEq, Eq, Structural)]
pub enum ConfigError {
    DomainNotSet,
    EmailNotSet,
    InvalidPort,
}

impl ConfigError {
    /// The error's text.
    pub open spec fn text(self) -> Seq<char> {
        match self {
            ConfigError::DomainNotSet => "DOMAIN not set in environment"@,
            ConfigError::EmailNotSet => "EMAIL not set in environment"@,
            ConfigError::InvalidPort => "Invalid PORT value"@,
        }
    }

    /// The error's text.
    pub fn message(&self) -> (message: String)
        ensures
            message@ == self.text(),
    {
        match self {
            ConfigError::DomainNotSet => "DOMAIN not set in environment".to_string(),
            ConfigError::EmailNotSet => "EMAIL not set in environment".to_string(),
            ConfigError::InvalidPort => "Invalid PORT value".to_string(),
        }
    }
}

/// A text, or the one that stands for it where it is missing.
pub open spec fn text_or(s: Option<Seq<char>>, default: Seq<char>) -> Seq<char> {
    match s {
        Some(t) => t,
        None => default,
    }
}

/// Whether certificates come from the staging service, given the variable for
/// it in lower case: they do where it is missing, and where it says `true`.
pub open spec fn staging(lowered: Option<Seq<char>>) -> bool {
    match lowered {
        Some(l) => l == "true"@,
        None => true,
    }
}

/// The configuration that the environment gives, where `lowered` is the
/// variable for the staging service in lower case.
pub open spec fn configured(env: EnvironmentView, lowered: Option<Seq<char>>) -> Result<
    ConfigView,
    ConfigError,
> {
    match (env.domain, env.email, text::u16_value(text_or(env.port, DEFAULT_PORT@))) {
        (None, _, _) => Err(ConfigError::DomainNotSet),
        (_, None, _) => Err(ConfigError::EmailNotSet),
        (_, _, None) => Err(ConfigError::InvalidPort),
        (Some(domain), Some(email), Some(port)) => Ok(
            ConfigView {
                domain,
                email,
                cert_dir: text_or(env.cert_dir, DEFAULT_CERT_DIR@),
                use_staging: staging(lowered),
                host: text_or(env.host, DEFAULT_HOST@),
                port: port as u16,
            },
        ),
    }
}

/// The content of a configuration, or why there is none.
pub open spec fn result_view(config: Result<Config, ConfigError>) -> Result<
    ConfigView,
    ConfigError,
> {
    match config {
        Ok(c) => Ok(c@),
        Err(e) => Err(e),
    }
}

/// The text that `str::to_lowercase` makes of a text.
pub uninterp spec fn lowercase(s: Seq<char>) -> Seq<char>;

/// A character with the letters from `A` to `Z` in lower case.
pub open spec fn ascii_lower(c: char) -> char {
    if 'A' <= c <= 'Z' {
        (c as u32 + 32) as char
    } else {
        c
    }
}

/// Puts a text in lower case with `str::to_lowercase`. In a text of ASCII, that
/// turns the letters from `A` to `Z` into those from `a` to `z` and changes
/// nothing else.
#[verifier::external_body]
fn to_lowercase(s: &str) -> (lowered: String)
    ensures
        lowered@ == lowercase(s@),
        vstd::utf8::is_ascii_chars(s@) ==> lowered@ == s@.map_values(|l: char| ascii_lower(l)),
{
    s.to_lowercase()
}

/// A text, or the one that stands for it where it is missing.
fn take_or(s: Option<String>, default: &str) -> (out: String)
    ensures
        out@ == text_or(opt_view(s), default@),
{
    match s {
        Some(t) => t,
        None => default.to_string(),
    }
}

/// The configuration that the environment gives, where `lowered` is the
/// variable for the staging service in lower case.
pub fn configure(env: Environment, lowered: Option<String>) -> (config: Result<Config, ConfigError>)
    ensures
        result_view(config) == configured(env@, opt_view(lowered)),
{
    let domain: String = match env.domain {
        Some(domain) => domain,
        None => return Err(ConfigError::DomainNotSet),
    };
    let email: String = match env.email {
        Some(email) => email,
        None => return Err(ConfigError::EmailNotSet),
    };
    let cert_dir: String = take_or(env.cert_dir, DEFAULT_CERT_DIR);
    let use_staging: bool = match lowered {
        Some(l) => l == "true".to_string(),
        None => true,
    };
    let host: String = take_or(env.host, DEFAULT_HOST);
    let port_text: String = take_or(env.port, DEFAULT_PORT);
    match text::parse_u16(port_text.as_str()) {
        Some(port) => Ok(Config { domain, email, cert_dir, use_staging, host, port }),
        None => Err(ConfigError::InvalidPort),
    }
}

/// The variable for the staging service in lower case.
pub open spec fn lowered_staging(env: EnvironmentView) -> Option<Seq<char>> {
    match env.use_staging {
        Some(v) => Some(lowercase(v)),
        None => None,
    }
}

/// The configuration that the environment gives. `DOMAIN` and `EMAIL` must be
/// set, and `PORT` must be a port if it is; the rest has defaults. Staging is
/// switched on by `true`, however its letters are capitalised, and off by any
/// other value.
pub fn load_config(env: Environment) -> (config: Result<Config, ConfigError>)
    ensures
        result_view(config) == configured(env@, lowered_staging(env@)),
        match (config, env@.use_staging) {
            (Ok(c), Some(v)) => vstd::utf8::is_ascii_chars(v) ==> c.use_staging == (v.map_values(
                |l: char| ascii_lower(l),
            ) == "true"@),
            _ => true,
        },
{
    let lowered: Option<String> = match &env.use_staging {
        Some(v) => Some(to_lowercase(v.as_str())),
        None => None,
    };
    configure(env, lowered)
}

impl ConfigView {
    /// The address and port on which the server listens.
    pub open spec fn bind_address(self) -> Seq<char> {
        self.host + ":"@ + text::decimal(self.port as nat)
    }
}

impl Config {
    /// The address and port on which the server listens.
    pub fn bind_address(&self) -> (address: String)
        ensures
            address@ == self@.bind_address(),
    {
        let port: String = text::decimal_text(self.port as u64);
        self.host.clone().concat(":").concat(port.as_str())
    }
}

/// With a domain and an email alone, certificates are kept in `certs/`, they
/// come from the staging service, and the server listens on every address at
/// the port of HTTPS.
pub proof fn law_defaults(domain: Seq<char>, email: Seq<char>)
    ensures
        configured(
            EnvironmentView {
                domain: Some(domain),
                email: Some(email),
                cert_dir: None,
                use_staging: None,
                host: None,
                port: None,
            },
            None,
        ) == Ok::<ConfigView, ConfigError>(
            ConfigView {
                domain,
                email,
                cert_dir: "certs/"@,
                use_staging: true,
                host: "0.0.0.0"@,
                port: 443,
            },
        ),
{
    reveal_strlit("443");
    let digits = DEFAULT_PORT@;
    assert(digits == seq!['4', '4', '3']);
    assert(digits.drop_last() == seq!['4', '4']);
    assert(digits.drop_last().drop_last() == seq!['4']);
    assert(digits.drop_last().drop_last().drop_last() == Seq::<char>::empty());
    reveal_with_fuel(text::number, 4);
}

/// There is a configuration exactly where a domain and an email are set and the
/// port, if it is set, is one.
pub proof fn law_configured_iff(env: EnvironmentView, lowered: Option<Seq<char>>)
    ensures
        configured(env, lowered) is Ok <==> {
            &&& env.domain is Some
            &&& env.email is Some
            &&& env.port matches Some(p) ==> text::u16_value(p) is Some
        },
{
    law_defaults(Seq::empty(), Seq::empty());
}

/// A variable that is set is used as it stands, and one that is not has its
/// default. Staging is switched on by `true` alone, and where nothing is said.
pub proof fn law_variables_are_used(
    env: EnvironmentView,
    lowered: Option<Seq<char>>,
    config: ConfigView,
)
    requires
        configured(env, lowered) == Ok::<ConfigView, ConfigError>(config),
    ensures
        env.domain == Some(config.domain),
        env.email == Some(config.email),
        env.cert_dir is Some ==> env.cert_dir == Some(config.cert_dir),
        env.cert_dir is None ==> config.cert_dir == "certs/"@,
        env.host is Some ==> env.host == Some(config.host),
        env.host is None ==> config.host == "0.0.0.0"@,
        env.port matches Some(p) ==> text::u16_value(p) == Some(config.port as int),
        env.port is None ==> config.port == 443,
        lowered matches Some(l) ==> (config.use_staging <==> l == "true"@),
        lowered is None ==> config.use_staging,
{
    law_defaults(config.domain, config.email);
    match env.port {
        Some(p) => {
            crate::text_laws::law_numbers_fit(p);
        },
        None => {},
    }
}

/// A missing domain is reported first, then a missing email, and then a port
/// that is none.
pub proof fn law_errors_of_the_configuration(env: EnvironmentView, lowered: Option<Seq<char>>)
    ensures
        env.domain is None ==> (configured(env, lowered) matches Err(e) && e.text()
            == "DOMAIN not set in environment"@),
        env.domain is Some && env.email is None ==> (configured(env, lowered) matches Err(e)
            && e.text() == "EMAIL not set in environment"@),
        env.domain is Some && env.email is Some && (env.port matches Some(p) && text::u16_value(
            p,
        ) is None) ==> (configured(env, lowered) matches Err(e) && e.text()
            == "Invalid PORT value"@),
{
}

/// A port that is given in decimal is the port on which the server listens.
pub proof fn law_port_is_that_of_the_variable(
    env: EnvironmentView,
    lowered: Option<Seq<char>>,
    port: nat,
)
    requires
        env.domain is Some,
        env.email is Some,
        env.port == Some(text::decimal(port)),
    ensures
        port <= 65535 ==> (configured(env, lowered) matches Ok(c) && c.port == port),
        port > 65535 ==> configured(env, lowered) is Err,
{
    crate::text_laws::law_decimal_is_read_back(port);
}

/// The variable for staging is read in lower case, and where it is not set there
/// is nothing to read.
pub proof fn law_staging_is_read_in_lower_case(env: EnvironmentView)
    ensures
        env.use_staging is None <==> lowered_staging(env) is None,
        env.use_staging matches Some(v) ==> lowered_staging(env) == Some(lowercase(v)),
{
}

/// Only the letters from `A` to `Z` are put in lower case, each to its own.
pub proof fn law_lower_case(c: char)
    ensures
        'A' <= c <= 'Z' ==> ascii_lower(c) as u32 == c as u32 + 32,
        !('A' <= c <= 'Z') ==> ascii_lower(c) == c,
{
}

/// The server listens at the address that was configured, and behind a colon
/// stands the port, in decimal.
pub proof fn law_bind_address(config: ConfigView)
    ensures
        ({
            let address = config.bind_address();
            let n = config.host.len() as int;
            &&& address.len() > n + 1
            &&& address.take(n) == config.host
            &&& address[n] == ':'
            &&& text::all_digits(address.skip(n + 1))
            &&& text::u16_value(address.skip(n + 1)) == Some(config.port as int)
            &&& address[n + 1] == '0' ==> config.port == 0
        }),
{
    reveal_strlit(":");
    crate::text_laws::law_decimal_is_read_back(config.port as nat);
    let address = config.bind_address();
    let n = config.host.len() as int;
    assert(address.take(n) == config.host);
    assert(address.skip(n + 1) == text::decimal(config.port as nat));
    assert(address[n + 1] == address.skip(n + 1)[0]);
}

} // verus!
