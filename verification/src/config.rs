//! Server configuration.

use ::config::{Config, Environment, File, FileFormat};
use vstd::prelude::*;
use vstd::utf8::is_ascii_chars;

verus! {

/// The decimal digit character of `d`, for `d < 10`.
pub open spec fn digit_char(d: nat) -> char {
    if d == 0 { '0' }
    else if d == 1 { '1' }
    else if d == 2 { '2' }
    else if d == 3 { '3' }
    else if d == 4 { '4' }
    else if d == 5 { '5' }
    else if d == 6 { '6' }
    else if d == 7 { '7' }
    else if d == 8 { '8' }
    else { '9' }
}

/// Decimal rendering of a natural number, without leading zeros.
pub open spec fn decimal(n: nat) -> Seq<char>
    decreases n,
{
    if n < 10 {
        seq![digit_char(n)]
    } else {
        decimal(n / 10) + seq![digit_char(n % 10)]
    }
}

/// Each digit is written as the character whose code is that of `0` plus the digit.
pub proof fn digit_char_is_ascii_digit(d: nat)
    requires
        d < 10,
    ensures
        digit_char(d) as int == '0' as int + d,
{
}

/// The decimal rendering of `n` is a nonempty string of ASCII digits, without a
/// leading zero unless `n` is 0, and it reads back as `n`.
pub proof fn decimal_reads_back(n: nat)
    ensures
        decimal(n).len() > 0,
        forall|i: int| 0 <= i < decimal(n).len() ==> '0' <= #[trigger] decimal(n)[i] <= '9',
        decimal_value(decimal(n)) == n,
        n > 0 ==> decimal(n)[0] != '0',
    decreases n,
{
    let s = decimal(n);
    if n < 10 {
        digit_char_is_ascii_digit(n);
        assert(s.drop_last() =~= Seq::<char>::empty());
        assert(decimal_value(s.drop_last()) == 0);
    } else {
        let q = n / 10;
        let r = n % 10;
        decimal_reads_back(q);
        digit_char_is_ascii_digit(r);
        assert(s.drop_last() =~= decimal(q));
        assert forall|i: int| 0 <= i < s.len() implies '0' <= #[trigger] s[i] <= '9' by {
            if i < decimal(q).len() {
                assert(s[i] == decimal(q)[i]);
            } else {
                assert(s[i] == digit_char(r));
            }
        }
        assert(s[0] == decimal(q)[0]);
        assert(n == q * 10 + r);
    }
}

fn digit_str(d: u16) -> (s: &'static str)
    requires
        d < 10,
    ensures
        s@ == seq![digit_char(d as nat)],
{
    proof {
        reveal_strlit("0");
        reveal_strlit("1");
        reveal_strlit("2");
        reveal_strlit("3");
        reveal_strlit("4");
        reveal_strlit("5");
        reveal_strlit("6");
        reveal_strlit("7");
        reveal_strlit("8");
        reveal_strlit("9");
    }
    match d {
        0 => "0",
        1 => "1",
        2 => "2",
        3 => "3",
        4 => "4",
        5 => "5",
        6 => "6",
        7 => "7",
        8 => "8",
        _ => "9",
    }
}

/// Appends the decimal rendering of `n` to `out`.
fn push_decimal(out: &mut String, n: u16)
    ensures
        final(out)@ == old(out)@ + decimal(n as nat),
    decreases n,
{
    if n >= 10 {
        push_decimal(out, n / 10);
    }
    let d = digit_str(n % 10);
    out.append(d);
}

/// Database connection settings.
pub struct DatabaseConfig {
    pub url: String,
}

/// HTTP listener settings.
pub struct HttpConfig {
    pub listen_host: String,
    pub listen_port: u16,
}

/// The address the listener binds to: host, a colon, and the port in decimal.
pub open spec fn bind_str(host: Seq<char>, port: u16) -> Seq<char> {
    host + seq![':'] + decimal(port as nat)
}

/// The listen address splits into the host, a colon, and the port written in
/// decimal digits that read back as the port; the colon is the last one, since
/// only digits follow it.
pub proof fn bind_address_reads_back(host: Seq<char>, port: u16)
    ensures
        bind_str(host, port).take(host.len() as int) == host,
        bind_str(host, port)[host.len() as int] == ':',
        bind_str(host, port).len() > host.len() + 1,
        forall|i: int| host.len() < i < bind_str(host, port).len()
            ==> '0' <= #[trigger] bind_str(host, port)[i] <= '9',
        decimal_value(bind_str(host, port).skip(host.len() + 1int)) == port as int,
{
    let s = bind_str(host, port);
    let digits = decimal(port as nat);
    decimal_reads_back(port as nat);
    assert(s.take(host.len() as int) =~= host);
    assert(s.skip(host.len() + 1int) =~= digits);
    assert forall|i: int| host.len() < i < s.len() implies '0' <= #[trigger] s[i] <= '9' by {
        assert(s[i] == digits[i - host.len() - 1]);
    }
}

impl HttpConfig {
    /// Renders the listen address as `host:port`.
    pub fn as_bind_str(&self) -> (s: String)
        ensures
            s@ == bind_str(self.listen_host@, self.listen_port),
            s@.take(self.listen_host@.len() as int) == self.listen_host@,
            s@[self.listen_host@.len() as int] == ':',
            forall|i: int| self.listen_host@.len() < i < s@.len() ==> '0' <= #[trigger] s@[i] <= '9',
            decimal_value(s@.skip(self.listen_host@.len() + 1int)) == self.listen_port as int,
    {
        proof {
            bind_address_reads_back(self.listen_host@, self.listen_port);
        }
        let mut s = self.listen_host.clone();
        proof {
            reveal_strlit(":");
        }
        s.append(":");
        push_decimal(&mut s, self.listen_port);
        s
    }
}

/// Token signing settings.
pub struct JwtConfig {
    pub secret: String,
}

/// Server configuration.
pub struct ServerConfig {
    pub database: DatabaseConfig,
    pub http: HttpConfig,
    pub jwt: JwtConfig,
}

/// Why the configuration could not be loaded.
pub struct ConfigurationError {
    pub message: String,
}

/// The string setting `key` (a dotted path such as `http.listen_host`) of the
/// configuration that the `config` crate builds from the TOML text `toml` overlaid
/// with the environment variables `env` (in that order) whose names start with
/// `prefix` and `separator`, `separator` standing for the dots of the path; `None`
/// when the configuration does not build or the setting is missing or not a string.
pub uninterp spec fn config_string(
    toml: Seq<char>,
    env: Seq<(Seq<char>, Seq<char>)>,
    prefix: Seq<char>,
    separator: Seq<char>,
    key: Seq<char>,
) -> Option<Seq<char>>;

/// The same for a setting read as a 16-bit unsigned integer.
pub uninterp spec fn config_u16(
    toml: Seq<char>,
    env: Seq<(Seq<char>, Seq<char>)>,
    prefix: Seq<char>,
    separator: Seq<char>,
    key: Seq<char>,
) -> Option<u16>;

/// ASCII lower case of a character.
pub open spec fn ascii_lower(c: char) -> char {
    if 'A' <= c && c <= 'Z' {
        ((c as u32) + 32) as char
    } else {
        c
    }
}

/// ASCII lower case of a string.
pub open spec fn ascii_lowercase(s: Seq<char>) -> Seq<char> {
    s.map_values(|c: char| ascii_lower(c))
}

/// `s` with every occurrence of `separator`, taken from left to right without
/// overlap, replaced by a dot.
pub open spec fn separators_to_dots(s: Seq<char>, separator: Seq<char>) -> Seq<char>
    decreases s.len(),
{
    if separator.len() == 0 || s.len() == 0 {
        s
    } else if s.len() >= separator.len() && s.take(separator.len() as int) == separator {
        seq!['.'] + separators_to_dots(s.skip(separator.len() as int), separator)
    } else {
        seq![s[0]] + separators_to_dots(s.skip(1), separator)
    }
}

/// The setting an ASCII variable name stands for, with an ASCII prefix and separator:
/// lower-cased, it starts with the lower-cased prefix and separator, and the rest, with
/// separators as dots, is the setting's path. `None` when the name does not start so.
pub open spec fn setting_named_by(name: Seq<char>, prefix: Seq<char>, separator: Seq<char>) -> Option<Seq<char>> {
    let pattern = ascii_lowercase(prefix + separator);
    let lower = ascii_lowercase(name);
    if lower.len() >= pattern.len() && lower.take(pattern.len() as int) == pattern {
        Some(separators_to_dots(lower.skip(pattern.len() as int), separator))
    } else {
        None
    }
}

/// Whether a lower-cased ASCII string holds an `i` or a `k`: the only ASCII letters that a
/// non-ASCII character lower-cases into (U+0130 into `i` and a combining dot, the Kelvin
/// sign U+212A into `k`).
pub open spec fn has_i_or_k(s: Seq<char>) -> bool {
    s.contains('i') || s.contains('k')
}

/// The variable name cannot be one the `config` crate reads, which takes the names whose
/// Unicode lower case starts with the lower-cased prefix and separator. Said of an ASCII
/// prefix and separator only: when they hold no `i` or `k`, the names whose first
/// characters are not those of the prefix and separator in ASCII, in any letter case;
/// otherwise the names whose first characters are ASCII and differ so (or, shorter, are
/// all ASCII).
pub open spec fn surely_unread(name: Seq<char>, prefix: Seq<char>, separator: Seq<char>) -> bool {
    let pattern = prefix + separator;
    &&& is_ascii_chars(pattern)
    &&& if !has_i_or_k(ascii_lowercase(pattern)) {
        !(name.len() >= pattern.len() && is_ascii_chars(name.take(pattern.len() as int))
            && ascii_lowercase(name.take(pattern.len() as int)) == ascii_lowercase(pattern))
    } else if name.len() >= pattern.len() {
        is_ascii_chars(name.take(pattern.len() as int)) && ascii_lowercase(
            name.take(pattern.len() as int),
        ) != ascii_lowercase(pattern)
    } else {
        is_ascii_chars(name)
    }
}

/// The variables of `env` that the `config` crate may read: `env` without the surely
/// unread ones, in order.
pub open spec fn read_vars(env: Seq<(Seq<char>, Seq<char>)>, prefix: Seq<char>, separator: Seq<char>) -> Seq<(Seq<char>, Seq<char>)> {
    env.filter(|var: (Seq<char>, Seq<char>)| !surely_unread(var.0, prefix, separator))
}

/// The variable name may stand for the setting `key`: it is not surely unread, and
/// it is either not ASCII (its Unicode lower case is not followed here) or stands
/// for `key`.
pub open spec fn may_name(name: Seq<char>, prefix: Seq<char>, separator: Seq<char>, key: Seq<char>) -> bool {
    &&& !surely_unread(name, prefix, separator)
    &&& (!is_ascii_chars(name) || setting_named_by(name, prefix, separator) == Some(key))
}

/// `env[i]` is the one variable that sets `key`: the prefix and separator are ASCII, the
/// variable's ASCII name stands for `key`, and no other variable may stand for it.
pub open spec fn sole_setter(
    env: Seq<(Seq<char>, Seq<char>)>,
    i: int,
    prefix: Seq<char>,
    separator: Seq<char>,
    key: Seq<char>,
) -> bool {
    &&& is_ascii_chars(prefix + separator)
    &&& 0 <= i < env.len()
    &&& is_ascii_chars(env[i].0)
    &&& setting_named_by(env[i].0, prefix, separator) == Some(key)
    &&& forall|j: int| 0 <= j < env.len() && j != i ==> !may_name(#[trigger] env[j].0, prefix, separator, key)
}

/// The number `config` reads a string setting as (`Value::into_uint`): 1 for
/// `true`, `on`, `yes` and 0 for `false`, `off`, `no` in any letter case, otherwise
/// the decimal number written with an optional `+`, within 64 bits.
pub open spec fn uint_of_text(s: Seq<char>) -> Option<int> {
    let lower = ascii_lowercase(s);
    if lower == "true"@ || lower == "on"@ || lower == "yes"@ {
        Some(1)
    } else if lower == "false"@ || lower == "off"@ || lower == "no"@ {
        Some(0)
    } else {
        let digits = if s.len() > 0 && s[0] == '+' { s.skip(1) } else { s };
        if digits.len() > 0 && (forall|i: int| 0 <= i < digits.len() ==> '0' <= #[trigger] digits[i] <= '9')
            && decimal_value(digits) <= u64::MAX {
            Some(decimal_value(digits))
        } else {
            None
        }
    }
}

/// The value of a string of decimal digits.
pub open spec fn decimal_value(digits: Seq<char>) -> int
    decreases digits.len(),
{
    if digits.len() == 0 {
        0
    } else {
        decimal_value(digits.drop_last()) * 10 + (digits.last() as int - '0' as int)
    }
}

/// Reads the string setting `key` with `config::Config::get::<String>` from the
/// configuration built (`ConfigBuilder::build`) from `File::from_str(toml, FileFormat::Toml)`
/// overlaid with `Environment::with_prefix(prefix).separator(separator)` fed with `env`,
/// collected in order into `config::Map` (an `IndexMap`: the crate's `preserve_order`
/// feature is on, so every map it builds keeps insertion order and the outcome depends on
/// the arguments alone). An error is given as its display text.
///
/// Claimed besides: the variables that are surely unread do not change the outcome
/// (`Environment` skips them before anything else); and when exactly one variable sets
/// `key` (`sole_setter`), a setting that is read is that variable's value, since the environment is merged after the file, an
/// environment value stays a string, and no other variable writes that path.
#[verifier::external_body]
fn config_get_string(
    toml: &str,
    env: &Vec<(String, String)>,
    prefix: &str,
    separator: &str,
    key: &str,
) -> (r: Result<String, String>)
    ensures
        match r {
            Ok(v) => config_string(toml@, env.deep_view(), prefix@, separator@, key@) == Some(v@),
            Err(_) => config_string(toml@, env.deep_view(), prefix@, separator@, key@) is None,
        },
        match r {
            Ok(v) => config_string(toml@, read_vars(env.deep_view(), prefix@, separator@), prefix@, separator@, key@) == Some(v@),
            Err(_) => config_string(toml@, read_vars(env.deep_view(), prefix@, separator@), prefix@, separator@, key@) is None,
        },
        forall|i: int| #[trigger] sole_setter(env.deep_view(), i, prefix@, separator@, key@)
            ==> (r matches Ok(v) ==> v@ == env.deep_view()[i].1),
{
    let vars: ::config::Map<String, String> = env.iter().cloned().collect();
    let settings = Config::builder()
        .add_source(File::from_str(toml, FileFormat::Toml))
        .add_source(Environment::with_prefix(prefix).separator(separator).source(Some(vars)))
        .build();
    match settings {
        Ok(settings) => match settings.get::<String>(key) {
            Ok(v) => Ok(v),
            Err(e) => Err(e.to_string()),
        },
        Err(e) => Err(e.to_string()),
    }
}

/// Reads the setting `key` as a `u16` with `config::Config::get::<u16>`, from the
/// configuration built as in `config_get_string`. An error is given as its display text.
///
/// Claimed besides: the variables that are surely unread do not change the outcome; and
/// when exactly one variable sets `key`, a setting that is read is
/// that variable's value read as a number (`uint_of_text`; `Value::into_uint` compares the
/// Unicode lower case of the text with ASCII words, which only ASCII-case-insensitive
/// equal text matches), and a value read as a number above 65535 is refused.
#[verifier::external_body]
fn config_get_u16(
    toml: &str,
    env: &Vec<(String, String)>,
    prefix: &str,
    separator: &str,
    key: &str,
) -> (r: Result<u16, String>)
    ensures
        match r {
            Ok(v) => config_u16(toml@, env.deep_view(), prefix@, separator@, key@) == Some(v),
            Err(_) => config_u16(toml@, env.deep_view(), prefix@, separator@, key@) is None,
        },
        match r {
            Ok(v) => config_u16(toml@, read_vars(env.deep_view(), prefix@, separator@), prefix@, separator@, key@) == Some(v),
            Err(_) => config_u16(toml@, read_vars(env.deep_view(), prefix@, separator@), prefix@, separator@, key@) is None,
        },
        forall|i: int| #[trigger] sole_setter(env.deep_view(), i, prefix@, separator@, key@)
            ==> (r matches Ok(v) ==> uint_of_text(env.deep_view()[i].1) == Some(v as int)),
        forall|i: int| #[trigger] sole_setter(env.deep_view(), i, prefix@, separator@, key@)
            ==> (uint_of_text(env.deep_view()[i].1) matches Some(n) && n > 65535 ==> r is Err),
{
    let vars: ::config::Map<String, String> = env.iter().cloned().collect();
    let settings = Config::builder()
        .add_source(File::from_str(toml, FileFormat::Toml))
        .add_source(Environment::with_prefix(prefix).separator(separator).source(Some(vars)))
        .build();
    match settings {
        Ok(settings) => match settings.get::<u16>(key) {
            Ok(v) => Ok(v),
            Err(e) => Err(e.to_string()),
        },
        Err(e) => Err(e.to_string()),
    }
}

/// Prefix of the environment variables that configure the server.
pub open spec fn env_prefix() -> Seq<char> {
    seq!['n', 'a']
}

/// Separator of the path in the names of those variables.
pub open spec fn env_separator() -> Seq<char> {
    seq!['_', '_']
}

/// The string setting `key` read from `toml` and `env`.
pub open spec fn setting(toml: Seq<char>, env: Seq<(Seq<char>, Seq<char>)>, key: Seq<char>) -> Option<Seq<char>> {
    config_string(toml, env, env_prefix(), env_separator(), key)
}

/// The port setting `key` read from `toml` and `env`.
pub open spec fn port_setting(toml: Seq<char>, env: Seq<(Seq<char>, Seq<char>)>, key: Seq<char>) -> Option<u16> {
    config_u16(toml, env, env_prefix(), env_separator(), key)
}

/// The variables of `env` that may configure the server.
pub open spec fn read_env(env: Seq<(Seq<char>, Seq<char>)>) -> Seq<(Seq<char>, Seq<char>)> {
    read_vars(env, env_prefix(), env_separator())
}

/// `env[i]` is the one variable (such as `NA__HTTP__LISTEN_HOST`) that sets `key`.
pub open spec fn env_sets(env: Seq<(Seq<char>, Seq<char>)>, i: int, key: Seq<char>) -> bool {
    sole_setter(env, i, env_prefix(), env_separator(), key)
}

/// All four settings are there: the configuration loads.
pub open spec fn loads(toml: Seq<char>, env: Seq<(Seq<char>, Seq<char>)>) -> bool {
    &&& setting(toml, env, "database.url"@) is Some
    &&& setting(toml, env, "http.listen_host"@) is Some
    &&& port_setting(toml, env, "http.listen_port"@) is Some
    &&& setting(toml, env, "jwt.secret"@) is Some
}

/// `cfg` holds the settings read from `toml` and `env`.
pub open spec fn loaded(cfg: ServerConfig, toml: Seq<char>, env: Seq<(Seq<char>, Seq<char>)>) -> bool {
    &&& setting(toml, env, "database.url"@) == Some(cfg.database.url@)
    &&& setting(toml, env, "http.listen_host"@) == Some(cfg.http.listen_host@)
    &&& port_setting(toml, env, "http.listen_port"@) == Some(cfg.http.listen_port)
    &&& setting(toml, env, "jwt.secret"@) == Some(cfg.jwt.secret@)
}

/// Environment variables override the file: a setting that one variable sets holds
/// that variable's value (for the port, the value read as a number).
pub open spec fn env_overrides(cfg: ServerConfig, env: Seq<(Seq<char>, Seq<char>)>) -> bool {
    &&& forall|i: int| #[trigger] env_sets(env, i, "database.url"@) ==> cfg.database.url@ == env[i].1
    &&& forall|i: int| #[trigger] env_sets(env, i, "http.listen_host"@) ==> cfg.http.listen_host@ == env[i].1
    &&& forall|i: int| #[trigger] env_sets(env, i, "http.listen_port"@) ==> uint_of_text(env[i].1) == Some(cfg.http.listen_port as int)
    &&& forall|i: int| #[trigger] env_sets(env, i, "jwt.secret"@) ==> cfg.jwt.secret@ == env[i].1
}

impl ServerConfig {
    /// Loads the server configuration from the text of the configuration file
    /// (TOML) and the environment variables.
    ///
    /// Environment variables override the file: prefix `NA__`, path separator `__`
    /// (`NA__HTTP__LISTEN_PORT` sets `http.listen_port`); variables without the prefix
    /// have no effect.
    pub fn new(toml: &str, env: &Vec<(String, String)>) -> (r: Result<ServerConfig, ConfigurationError>)
        ensures
            match r {
                Ok(cfg) => loaded(cfg, toml@, env.deep_view()) && env_overrides(cfg, env.deep_view()),
                Err(_) => !loads(toml@, env.deep_view()),
            },
            match r {
                Ok(cfg) => loaded(cfg, toml@, read_env(env.deep_view())),
                Err(_) => !loads(toml@, read_env(env.deep_view())),
            },
            forall|i: int| #[trigger] env_sets(env.deep_view(), i, "http.listen_port"@)
                ==> (uint_of_text(env.deep_view()[i].1) matches Some(n) && n > 65535 ==> r is Err),
    {
        let prefix = "na";
        let separator = "__";
        proof {
            reveal_strlit("na");
            reveal_strlit("__");
            assert(prefix@ =~= env_prefix());
            assert(separator@ =~= env_separator());
        }
        let url = match config_get_string(toml, env, prefix, separator, "database.url") {
            Ok(v) => v,
            Err(message) => return Err(ConfigurationError { message }),
        };
        let listen_host = match config_get_string(toml, env, prefix, separator, "http.listen_host") {
            Ok(v) => v,
            Err(message) => return Err(ConfigurationError { message }),
        };
        let listen_port = match config_get_u16(toml, env, prefix, separator, "http.listen_port") {
            Ok(v) => v,
            Err(message) => return Err(ConfigurationError { message }),
        };
        let secret = match config_get_string(toml, env, prefix, separator, "jwt.secret") {
            Ok(v) => v,
            Err(message) => return Err(ConfigurationError { message }),
        };
        Ok(ServerConfig {
            database: DatabaseConfig { url },
            http: HttpConfig { listen_host, listen_port },
            jwt: JwtConfig { secret },
        })
    }
}

} // verus!
