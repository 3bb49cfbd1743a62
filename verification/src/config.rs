//! The settings of the service, read from the variables of its environment.
//!
//! The environment is handed in as a list of names with their values. Where
//! a name stands more than once, its first entry counts.

use vstd::prelude::*;
use vstd::pervasive::unreached;
use crate::text::same_text;

verus! {

/// Everything the service is configured with.
#[derive(Debug, PartialEq, Eq)]
pub struct Config {
    pub log_level: String,
    pub database_url: String,
    pub jwt_secret: String,
    pub http_server_max_connexion: usize,
    pub http_server_num_worker: usize,
    pub http_server_hostname: String,
    pub http_listen_ip: String,
    pub http_listen_port: usize,
    pub prometheus_metrics_path: String,
    pub prometheus_namespace: String,
}

/// The mathematical value of a [`Config`].
pub struct ConfigView {
    pub log_level: Seq<char>,
    pub database_url: Seq<char>,
    pub jwt_secret: Seq<char>,
    pub http_server_max_connexion: nat,
    pub http_server_num_worker: nat,
    pub http_server_hostname: Seq<char>,
    pub http_listen_ip: Seq<char>,
    pub http_listen_port: nat,
    pub prometheus_metrics_path: Seq<char>,
    pub prometheus_namespace: Seq<char>,
}

impl View for Config {
    type V = ConfigView;

    open spec fn view(&self) -> ConfigView {
        ConfigView {
            log_level: self.log_level@,
            database_url: self.database_url@,
            jwt_secret: self.jwt_secret@,
            http_server_max_connexion: self.http_server_max_connexion as nat,
            http_server_num_worker: self.http_server_num_worker as nat,
            http_server_hostname: self.http_server_hostname@,
            http_listen_ip: self.http_listen_ip@,
            http_listen_port: self.http_listen_port as nat,
            prometheus_metrics_path: self.prometheus_metrics_path@,
            prometheus_namespace: self.prometheus_namespace@,
        }
    }
}

/// A variable that can keep the service from starting.
#[derive(Debug, Clone, Copy, PartialEq, Eq, Structural)]
pub enum Setting {
    DatabaseUrl,
    JwtSecret,
    MaxConnexion,
    NumWorkers,
    ListenPort,
}

/// Why no configuration could be made.
#[derive(Debug, Clone, Copy, PartialEq, Eq, Structural)]
pub enum ConfigError {
    /// The variable must be set and is not.
    Missing(Setting),
    /// The variable, or its default, is not a number that fits.
    NotANumber(Setting),
}

impl Setting {
    /// The name of the variable in the environment.
    pub open spec fn name_text(self) -> Seq<char> {
        match self {
            Setting::DatabaseUrl => "DATABASE_URL"@,
            Setting::JwtSecret => "JWT_SECRET"@,
            Setting::MaxConnexion => "HTTP_SERVER_MAX_CONNEXION"@,
            Setting::NumWorkers => "HTTP_SERVER_NUM_WORKERS"@,
            Setting::ListenPort => "HTTP_LISTEN_PORT"@,
        }
    }

    /// What the variable counts as where it is not set. The two that must be
    /// set have none.
    pub open spec fn default_text(self) -> Seq<char> {
        match self {
            Setting::MaxConnexion => "5"@,
            Setting::NumWorkers => "5"@,
            Setting::ListenPort => "8080"@,
            _ => Seq::empty(),
        }
    }

    pub fn name(&self) -> (text: &'static str)
        ensures
            text@ == self.name_text(),
    {
        match self {
            Setting::DatabaseUrl => "DATABASE_URL",
            Setting::JwtSecret => "JWT_SECRET",
            Setting::MaxConnexion => "HTTP_SERVER_MAX_CONNEXION",
            Setting::NumWorkers => "HTTP_SERVER_NUM_WORKERS",
            Setting::ListenPort => "HTTP_LISTEN_PORT",
        }
    }
}

/// The values of the entries of an environment, in the same order.
pub open spec fn env_view(vars: Seq<(String, String)>) -> Seq<(Seq<char>, Seq<char>)> {
    vars.map_values(|entry: (String, String)| (entry.0@, entry.1@))
}

/// The value of `name` in `env`: that of its first entry, if it has one.
pub open spec fn lookup(env: Seq<(Seq<char>, Seq<char>)>, name: Seq<char>) -> Option<Seq<char>>
    decreases env.len(),
{
    if env.len() == 0 {
        None
    } else if env[0].0 == name {
        Some(env[0].1)
    } else {
        lookup(env.drop_first(), name)
    }
}

/// The value of `name` in `env`, or `default` where it has none.
pub open spec fn value_or(
    env: Seq<(Seq<char>, Seq<char>)>,
    name: Seq<char>,
    default: Seq<char>,
) -> Seq<char> {
    match lookup(env, name) {
        Some(value) => value,
        None => default,
    }
}

/// `c` is one of the ten decimal digits.
pub open spec fn is_digit(c: char) -> bool {
    '0' <= c && c <= '9'
}

/// The number a decimal digit stands for.
pub open spec fn digit_value(c: char) -> nat {
    (c as int - '0' as int) as nat
}

/// Every character of `s` is a decimal digit.
pub open spec fn all_digits(s: Seq<char>) -> bool {
    forall|i: int| 0 <= i < s.len() ==> is_digit(#[trigger] s[i])
}

/// The number that a string of decimal digits writes.
pub open spec fn digits_value(s: Seq<char>) -> nat
    decreases s.len(),
{
    if s.len() == 0 {
        0
    } else {
        digits_value(s.drop_last()) * 10 + digit_value(s.last())
    }
}

/// `s` without the one plus sign that may lead it.
pub open spec fn without_plus(s: Seq<char>) -> Seq<char> {
    if s.len() > 0 && s[0] == '+' {
        s.drop_first()
    } else {
        s
    }
}

/// The number that `s` writes: an optional plus sign, then one or more
/// decimal digits and nothing else, for a number that fits. Anything else
/// writes no number: the empty string, a sign alone, a minus sign, a blank.
pub open spec fn parsed_number(s: Seq<char>) -> Option<usize> {
    let digits = without_plus(s);
    if digits.len() > 0 && all_digits(digits) && digits_value(digits) <= usize::MAX {
        Some(digits_value(digits) as usize)
    } else {
        None
    }
}

/// The listen port as the port number it is, if it is one.
pub open spec fn port_of(port: nat) -> Option<u16> {
    if port <= u16::MAX {
        Some(port as u16)
    } else {
        None
    }
}

/// A number read off a variable or its default.
pub open spec fn number_of(env: Seq<(Seq<char>, Seq<char>)>, setting: Setting) -> Result<
    usize,
    ConfigError,
> {
    match parsed_number(value_or(env, setting.name_text(), setting.default_text())) {
        Some(n) => Ok(n),
        None => Err(ConfigError::NotANumber(setting)),
    }
}

/// A text read off a variable that must be set.
pub open spec fn required_of(env: Seq<(Seq<char>, Seq<char>)>, setting: Setting) -> Result<
    Seq<char>,
    ConfigError,
> {
    match lookup(env, setting.name_text()) {
        Some(value) => Ok(value),
        None => Err(ConfigError::Missing(setting)),
    }
}

/// The configuration that an environment gives, or the first thing that
/// keeps it from giving one: the database URL, the secret, then the three
/// numbers in the order of connections, workers, port.
pub open spec fn config_of(env: Seq<(Seq<char>, Seq<char>)>) -> Result<ConfigView, ConfigError> {
    match required_of(env, Setting::DatabaseUrl) {
        Err(e) => Err(e),
        Ok(database_url) => match required_of(env, Setting::JwtSecret) {
            Err(e) => Err(e),
            Ok(jwt_secret) => match number_of(env, Setting::MaxConnexion) {
                Err(e) => Err(e),
                Ok(max_connexion) => match number_of(env, Setting::NumWorkers) {
                    Err(e) => Err(e),
                    Ok(num_worker) => match number_of(env, Setting::ListenPort) {
                        Err(e) => Err(e),
                        Ok(port) => Ok(
                            ConfigView {
                                log_level: value_or(env, "RUST_LOG"@, "DEBUG"@),
                                database_url,
                                jwt_secret,
                                http_server_max_connexion: max_connexion as nat,
                                http_server_num_worker: num_worker as nat,
                                http_server_hostname: value_or(
                                    env,
                                    "HTTP_SERVER_HOSTNAME"@,
                                    "localhost"@,
                                ),
                                http_listen_ip: value_or(env, "HTTP_LISTEN_IP"@, "0.0.0.0"@),
                                http_listen_port: port as nat,
                                prometheus_metrics_path: value_or(
                                    env,
                                    "PROMETHEUS_METRICS_PATH"@,
                                    "/metrics"@,
                                ),
                                prometheus_namespace: value_or(
                                    env,
                                    "PROMETHEUS_NAMESPACE"@,
                                    "rust-playground"@,
                                ),
                            },
                        ),
                    },
                },
            },
        },
    }
}

/// An environment gives a configuration: the two variables that must be
/// set are set, and the three numbers are numbers.
pub open spec fn is_loadable(env: Seq<(Seq<char>, Seq<char>)>) -> bool {
    config_of(env) is Ok
}

/// A longer string of digits writes no smaller a number.
proof fn lemma_digits_value_grows(s: Seq<char>, n: int)
    requires
        0 <= n <= s.len(),
    ensures
        digits_value(s.subrange(0, n)) <= digits_value(s),
    decreases s.len(),
{
    if n == s.len() {
        assert(s.subrange(0, n) =~= s);
    } else {
        lemma_digits_value_grows(s.drop_last(), n);
        assert(s.drop_last().subrange(0, n) =~= s.subrange(0, n));
    }
}

/// Looks `name` up among the variables.
fn env_lookup(vars: &Vec<(String, String)>, name: &str) -> (found: Option<String>)
    ensures
        match found {
            Some(value) => lookup(env_view(vars@), name@) == Some(value@),
            None => lookup(env_view(vars@), name@) is None,
        },
{
    let ghost env = env_view(vars@);
    assert(env.subrange(0, env.len() as int) =~= env);
    let mut i: usize = 0;
    while i < vars.len()
        invariant
            i <= vars.len(),
            env == env_view(vars@),
            lookup(env, name@) == lookup(env.subrange(i as int, env.len() as int), name@),
        decreases vars.len() - i,
    {
        let ghost rest = env.subrange(i as int, env.len() as int);
        assert(rest[0] == env[i as int]);
        assert(rest.drop_first() =~= env.subrange(i + 1, env.len() as int));
        if same_text(vars[i].0.as_str(), name) {
            return Some(vars[i].1.clone());
        }
        i = i + 1;
    }
    assert(env.subrange(i as int, env.len() as int).len() == 0);
    None
}

/// The value of the variable, or the default where it is not set.
fn env_or_string(vars: &Vec<(String, String)>, name: &str, default: &str) -> (value: String)
    ensures
        value@ == value_or(env_view(vars@), name@, default@),
{
    match env_lookup(vars, name) {
        Some(value) => value,
        None => default.to_owned(),
    }
}

/// The value of a variable that must be set. Whoever calls has made sure
/// that it is.
fn env_or_panic(vars: &Vec<(String, String)>, setting: Setting) -> (value: String)
    requires
        required_of(env_view(vars@), setting) is Ok,
    ensures
        required_of(env_view(vars@), setting) == Ok::<Seq<char>, ConfigError>(value@),
{
    match env_lookup(vars, setting.name()) {
        Some(value) => value,
        None => unreached(),
    }
}

/// Whether a variable that must be set is set.
fn is_set(vars: &Vec<(String, String)>, setting: Setting) -> (set: bool)
    ensures
        set == (required_of(env_view(vars@), setting) is Ok),
{
    env_lookup(vars, setting.name()).is_some()
}

/// The number a decimal digit stands for, if `c` is one.
fn digit_of(c: char) -> (digit: Option<usize>)
    ensures
        match digit {
            Some(d) => is_digit(c) && d == digit_value(c),
            None => !is_digit(c),
        },
{
    if '0' <= c && c <= '9' {
        Some((c as u32 - '0' as u32) as usize)
    } else {
        None
    }
}

/// Reads a number as [`parsed_number`] defines it.
pub fn parse_number(text: &str) -> (number: Option<usize>)
    ensures
        number == parsed_number(text@),
{
    let len = text.unicode_len();
    if len == 0 {
        return None;
    }
    let start: usize = if text.get_char(0) == '+' {
        1
    } else {
        0
    };
    let ghost digits = without_plus(text@);
    assert(digits =~= text@.subrange(start as int, len as int));
    if start == len {
        return None;
    }
    let mut value: usize = 0;
    let mut i: usize = start;
    while i < len
        invariant
            start <= i <= len,
            len == text@.len(),
            digits == without_plus(text@),
            digits == text@.subrange(start as int, len as int),
            all_digits(digits.subrange(0, i - start)),
            value == digits_value(digits.subrange(0, i - start)),
        decreases len - i,
    {
        let c = text.get_char(i);
        let ghost seen = digits.subrange(0, i - start);
        let ghost next = digits.subrange(0, i - start + 1);
        assert(next.drop_last() =~= seen);
        assert(digits[i - start] == c);
        assert(next.last() == c);
        assert(digits_value(next) == digits_value(seen) * 10 + digit_value(c));
        match digit_of(c) {
            None => {
                return None;
            },
            Some(d) => {
                if value > (usize::MAX - d) / 10 {
                    proof {
                        lemma_digits_value_grows(digits, i - start + 1);
                    }
                    return None;
                }
                value = value * 10 + d;
                assert forall|k: int| 0 <= k < next.len() implies is_digit(#[trigger] next[k]) by {
                    if k < seen.len() {
                        assert(next[k] == seen[k]);
                    }
                }
            },
        }
        i = i + 1;
    }
    assert(digits.subrange(0, len - start) =~= digits);
    Some(value)
}

/// The number in the variable, or in the default where it is not set.
/// Whoever calls has made sure that it is a number.
fn env_or_int(vars: &Vec<(String, String)>, setting: Setting, default: &str) -> (number: usize)
    requires
        default@ == setting.default_text(),
        number_of(env_view(vars@), setting) is Ok,
    ensures
        number_of(env_view(vars@), setting) == Ok::<usize, ConfigError>(number),
{
    let text = env_or_string(vars, setting.name(), default);
    match parse_number(text.as_str()) {
        Some(n) => n,
        None => unreached(),
    }
}

/// Whether the variable, or the default where it is not set, is a number.
fn is_number(vars: &Vec<(String, String)>, setting: Setting, default: &str) -> (number: bool)
    requires
        default@ == setting.default_text(),
    ensures
        number == (number_of(env_view(vars@), setting) is Ok),
{
    let text = env_or_string(vars, setting.name(), default);
    parse_number(text.as_str()).is_some()
}

/// Says whether the environment gives a configuration, and if not, what is
/// the first thing that keeps it from giving one. To be called before
/// [`load_config_from_env`].
pub fn check_environment(vars: &Vec<(String, String)>) -> (checked: Result<(), ConfigError>)
    ensures
        checked is Ok <==> is_loadable(env_view(vars@)),
        checked matches Err(e) ==> config_of(env_view(vars@)) == Err::<ConfigView, ConfigError>(e),
{
    if !is_set(vars, Setting::DatabaseUrl) {
        Err(ConfigError::Missing(Setting::DatabaseUrl))
    } else if !is_set(vars, Setting::JwtSecret) {
        Err(ConfigError::Missing(Setting::JwtSecret))
    } else if !is_number(vars, Setting::MaxConnexion, "5") {
        Err(ConfigError::NotANumber(Setting::MaxConnexion))
    } else if !is_number(vars, Setting::NumWorkers, "5") {
        Err(ConfigError::NotANumber(Setting::NumWorkers))
    } else if !is_number(vars, Setting::ListenPort, "8080") {
        Err(ConfigError::NotANumber(Setting::ListenPort))
    } else {
        Ok(())
    }
}

/// Makes the configuration from the variables of the environment.
///
/// The database URL and the secret must be set. The numbers of connections
/// and of workers and the listen port must be numbers where they are set;
/// they default to 5, 5 and 8080. An environment that falls short of this
/// gives no configuration and must not be handed in: [`check_environment`]
/// tells. The other settings are free text with a default each.
pub fn load_config_from_env(vars: &Vec<(String, String)>) -> (config: Config)
    requires
        is_loadable(env_view(vars@)),
    ensures
        config_of(env_view(vars@)) == Ok::<ConfigView, ConfigError>(config@),
{
    Config {
        log_level: env_or_string(vars, "RUST_LOG", "DEBUG"),
        database_url: env_or_panic(vars, Setting::DatabaseUrl),
        jwt_secret: env_or_panic(vars, Setting::JwtSecret),
        http_server_max_connexion: env_or_int(vars, Setting::MaxConnexion, "5"),
        http_server_num_worker: env_or_int(vars, Setting::NumWorkers, "5"),
        http_server_hostname: env_or_string(vars, "HTTP_SERVER_HOSTNAME", "localhost"),
        http_listen_ip: env_or_string(vars, "HTTP_LISTEN_IP", "0.0.0.0"),
        http_listen_port: env_or_int(vars, Setting::ListenPort, "8080"),
        prometheus_metrics_path: env_or_string(vars, "PROMETHEUS_METRICS_PATH", "/metrics"),
        prometheus_namespace: env_or_string(vars, "PROMETHEUS_NAMESPACE", "rust-playground"),
    }
}

impl Config {
    /// The listen port as a port number, where it is one.
    pub fn listen_port(&self) -> (port: Option<u16>)
        ensures
            port == port_of(self@.http_listen_port),
    {
        if self.http_listen_port <= 65535 {
            Some(self.http_listen_port as u16)
        } else {
            None
        }
    }
}

} // verus!
