//! Settings of the API server, and what both servers share: logging levels
//! and the reading of a dotted IPv4 address.

use crate::text::{chars_of, pieces, same_text, split_text};
use vstd::pervasive::unreached;
use vstd::prelude::*;
use vstd::string::*;

verus! {

/// How much is logged. Declared from the least to the most, so that the
/// derived order calls a level greater the more it lets through.
#[derive(Debug, Clone, Copy, PartialEq, Eq, PartialOrd, Ord, Structural)]
pub enum Verbosity {
    Error,
    Warn,
    Info,
    Debug,
    Trace,
}

/// A logging level.
#[derive(Debug, Clone, Copy, PartialEq, Eq, PartialOrd, Ord, Structural)]
pub struct Level(pub Verbosity);

/// The level that `name` stands for, if any. Names are upper case.
pub open spec fn level_named(name: Seq<char>) -> Option<Level> {
    if name == "TRACE"@ {
        Some(Level(Verbosity::Trace))
    } else if name == "DEBUG"@ {
        Some(Level(Verbosity::Debug))
    } else if name == "INFO"@ {
        Some(Level(Verbosity::Info))
    } else if name == "WARN"@ {
        Some(Level(Verbosity::Warn))
    } else if name == "ERROR"@ {
        Some(Level(Verbosity::Error))
    } else {
        None
    }
}

impl Level {
    /// The name of the level.
    pub open spec fn name(self) -> Seq<char> {
        match self.0 {
            Verbosity::Trace => "TRACE"@,
            Verbosity::Debug => "DEBUG"@,
            Verbosity::Info => "INFO"@,
            Verbosity::Warn => "WARN"@,
            Verbosity::Error => "ERROR"@,
        }
    }

    /// The name of the level.
    pub fn as_str(&self) -> (r: &'static str)
        ensures
            r@ == self.name(),
    {
        match self.0 {
            Verbosity::Trace => "TRACE",
            Verbosity::Debug => "DEBUG",
            Verbosity::Info => "INFO",
            Verbosity::Warn => "WARN",
            Verbosity::Error => "ERROR",
        }
    }

    /// The name of the level, as the level is displayed.
    pub fn to_string(&self) -> (r: String)
        ensures
            r@ == self.name(),
    {
        self.as_str().to_owned()
    }

    /// The level that `name` stands for, or `None` for any other text.
    pub fn parse(name: &str) -> (r: Option<Level>)
        ensures
            r == level_named(name@),
    {
        if same_text(name, "TRACE") {
            Some(Level(Verbosity::Trace))
        } else if same_text(name, "DEBUG") {
            Some(Level(Verbosity::Debug))
        } else if same_text(name, "INFO") {
            Some(Level(Verbosity::Info))
        } else if same_text(name, "WARN") {
            Some(Level(Verbosity::Warn))
        } else if same_text(name, "ERROR") {
            Some(Level(Verbosity::Error))
        } else {
            None
        }
    }

    /// The level that `name` stands for.
    pub fn from(name: &str) -> (r: Level)
        requires
            level_named(name@) is Some,
        ensures
            level_named(name@) == Some(r),
    {
        match Level::parse(name) {
            Some(level) => level,
            None => unreached(),
        }
    }
}

/// A level's name stands for the level.
pub proof fn name_round_trip(level: Level)
    ensures
        level_named(level.name()) == Some(level),
{
    reveal_strlit("TRACE");
    reveal_strlit("DEBUG");
    reveal_strlit("INFO");
    reveal_strlit("WARN");
    reveal_strlit("ERROR");
    assert("TRACE"@[0] == 'T' && "DEBUG"@[0] == 'D' && "INFO"@[0] == 'I' && "WARN"@[0] == 'W' && "ERROR"@[0]
        == 'E');
}

/// Where the certificate and the key are, and whether TLS is on.
#[derive(Debug, Clone, PartialEq, Eq)]
pub struct TlsConfig {
    /// Path of the certificate file.
    pub cert: Option<String>,
    /// Path of the key file.
    pub key: Option<String>,
    pub enable: bool,
}

/// The address to listen on.
#[derive(Debug, Clone, PartialEq, Eq)]
pub struct NetworkConfig {
    pub ip: String,
    pub port: u16,
}

/// The logging level, by name.
#[derive(Debug, Clone, PartialEq, Eq)]
pub struct LoggingConfig {
    pub level: String,
}

/// The settings of the API server.
#[derive(Debug, Clone, PartialEq, Eq)]
pub struct Config {
    pub tls: TlsConfig,
    pub network: NetworkConfig,
    pub logging: LoggingConfig,
}

impl TlsConfig {
    /// TLS switched off, with no files named.
    pub fn off() -> (r: Self)
        ensures
            r.cert is None,
            r.key is None,
            !r.enable,
    {
        TlsConfig { cert: None, key: None, enable: false }
    }
}

impl Config {
    /// The TLS settings.
    pub fn tls(&self) -> (r: &TlsConfig)
        ensures
            *r == self.tls,
    {
        &self.tls
    }

    /// The address to listen on.
    pub fn network(&self) -> (r: &NetworkConfig)
        ensures
            *r == self.network,
    {
        &self.network
    }

    /// The logging settings.
    pub fn logging(&self) -> (r: &LoggingConfig)
        ensures
            *r == self.logging,
    {
        &self.logging
    }

    /// Lets the command line override the settings: TLS is on exactly where
    /// it asks for it, and a port or an address that it names replaces the
    /// one of the file.
    pub fn apply_cli(&mut self, tls: bool, port: Option<u16>, ip: Option<String>)
        ensures
            final(self).tls.enable == tls,
            final(self).tls.cert == old(self).tls.cert,
            final(self).tls.key == old(self).tls.key,
            final(self).network.port == match port {
                Some(given) => given,
                None => old(self).network.port,
            },
            final(self).network.ip@ == match ip {
                Some(given) => given@,
                None => old(self).network.ip@,
            },
            final(self).logging == old(self).logging,
    {
        self.tls.enable = tls;
        if let Some(given) = port {
            self.network.port = given;
        }
        if let Some(given) = ip {
            self.network.ip = given;
        }
    }

    /// The settings written out where no file is found: no TLS, every
    /// address on port 8081, level `INFO`.
    pub fn default() -> (r: Self)
        ensures
            r.tls.cert is None,
            r.tls.key is None,
            !r.tls.enable,
            r.network.ip@ == "0.0.0.0"@,
            r.network.port == 8081,
            r.logging.level@ == "INFO"@,
    {
        Config {
            tls: TlsConfig::off(),
            network: NetworkConfig { ip: "0.0.0.0".to_owned(), port: 8081 },
            logging: LoggingConfig { level: "INFO".to_owned() },
        }
    }
}

/// Whether `c` is a decimal digit.
pub open spec fn is_digit(c: char) -> bool {
    '0' <= c <= '9'
}

/// The number that the decimal digits `digits` write.
pub open spec fn decimal(digits: Seq<char>) -> int
    decreases digits.len(),
{
    if digits.len() == 0 {
        0
    } else {
        decimal(digits.drop_last()) * 10 + (digits.last() as int - '0' as int)
    }
}

/// Whether `digits` holds decimal digits and nothing else.
pub open spec fn all_digits(digits: Seq<char>) -> bool {
    forall|i: int| 0 <= i < digits.len() ==> is_digit(#[trigger] digits[i])
}

/// `text` without the `+` sign that it may start with.
pub open spec fn unsigned(text: Seq<char>) -> Seq<char> {
    if text.len() > 0 && text[0] == '+' {
        text.drop_first()
    } else {
        text
    }
}

/// The byte that `text` writes: one or more decimal digits, after a `+`
/// sign or after none, with a value of 255 at most. Leading zeros count for
/// nothing; a blank, a `-` sign or any other character makes the text
/// invalid.
pub open spec fn octet(text: Seq<char>) -> Option<u8> {
    let digits = unsigned(text);
    if digits.len() > 0 && all_digits(digits) && decimal(digits) <= 255 {
        Some(decimal(digits) as u8)
    } else {
        None
    }
}

/// The address that `text` writes: four bytes between three dots.
pub open spec fn ip_of(text: Seq<char>) -> Option<Seq<u8>> {
    let parts = pieces(text, '.');
    if parts.len() == 4 && octet(parts[0]) is Some && octet(parts[1]) is Some && octet(parts[2]) is Some && octet(
        parts[3],
    ) is Some {
        Some(seq![octet(parts[0])->Some_0, octet(parts[1])->Some_0, octet(parts[2])->Some_0, octet(parts[3])->Some_0])
    } else {
        None
    }
}

/// Reads one byte of an address.
pub fn parse_octet(text: &Vec<char>) -> (r: Option<u8>)
    ensures
        r == octet(text@),
{
    let start: usize = if text.len() > 0 && text[0] == '+' {
        1
    } else {
        0
    };
    let ghost digits = unsigned(text@);
    if start == text.len() {
        return None;
    }
    let mut value: u32 = 0;
    let mut n: usize = start;
    assert(digits.take(0) =~= Seq::empty());
    while n < text.len()
        invariant
            start <= n <= text.len(),
            start <= 1,
            digits == unsigned(text@),
            digits.len() == text.len() - start,
            forall|i: int| 0 <= i < digits.len() ==> digits[i] == text@[i + start],
            all_digits(digits.take(n - start)),
            value == decimal(digits.take(n - start)),
            value <= 255,
        decreases text.len() - n,
    {
        let c = text[n];
        assert(c == digits[n - start]);
        if !('0' <= c && c <= '9') {
            assert(!is_digit(digits[n - start]));
            return None;
        }
        assert(digits.take(n - start + 1).drop_last() =~= digits.take(n - start));
        assert(digits.take(n - start + 1).last() == c);
        assert(all_digits(digits.take(n - start + 1))) by {
            assert forall|i: int| 0 <= i < n - start + 1 implies is_digit(
                #[trigger] digits.take(n - start + 1)[i],
            ) by {
                if i < n - start {
                    assert(digits.take(n - start)[i] == digits[i]);
                }
            }
        }
        let next: u32 = value * 10 + (c as u32 - '0' as u32);
        if next > 255 {
            proof {
                if all_digits(digits) {
                    decimal_grows(digits, n - start + 1);
                }
            }
            return None;
        }
        value = next;
        n += 1;
    }
    assert(digits.take(n - start) =~= digits);
    Some(value as u8)
}

/// A number written with more digits is no smaller than the number that a
/// prefix of the digits writes.
pub proof fn decimal_grows(digits: Seq<char>, n: int)
    requires
        0 <= n <= digits.len(),
        all_digits(digits),
    ensures
        0 <= decimal(digits.take(n)) <= decimal(digits),
    decreases digits.len() - n,
{
    decimal_is_natural(digits.take(n));
    if n == digits.len() {
        assert(digits.take(n) =~= digits);
    } else {
        decimal_grows(digits, n + 1);
        let longer = digits.take(n + 1);
        assert(longer.drop_last() =~= digits.take(n));
        assert(is_digit(digits[n]));
        assert(longer.last() == digits[n]);
    }
}

/// Digits write a natural number.
pub proof fn decimal_is_natural(digits: Seq<char>)
    requires
        all_digits(digits),
    ensures
        0 <= decimal(digits),
    decreases digits.len(),
{
    if digits.len() > 0 {
        decimal_is_natural(digits.drop_last());
        assert(is_digit(digits[digits.len() - 1]));
    }
}

/// The text that `Debug` gives a list of strings: the strings between
/// square brackets, each in double quotes with its odd characters escaped,
/// and a comma and a blank between them.
pub uninterp spec fn debug_list(pieces: Seq<Seq<char>>) -> Seq<char>;

/// The texts that `pieces` hold.
pub open spec fn texts(pieces: Seq<Vec<char>>) -> Seq<Seq<char>> {
    Seq::new(pieces.len(), |i: int| pieces[i]@)
}

/// Writes `pieces` out with `format!` and `{:?}`, each piece as a string.
/// The contract names the text and says nothing else of it.
#[verifier::external_body]
fn list_as_debug(pieces: &Vec<Vec<char>>) -> (r: String)
    ensures
        r@ == debug_list(texts(pieces@)),
{
    format!("{:?}", pieces.iter().map(|piece| piece.iter().collect::<String>()).collect::<Vec<String>>())
}

/// The message for text that writes no address: the pieces of the text
/// between its dots, after a few fixed words.
pub open spec fn invalid_ip_message(ip: Seq<char>) -> Seq<char> {
    "invalid ip address: "@ + debug_list(pieces(ip, '.'))
}

/// Words the message for text that writes no address.
fn invalid_ip(ip: &str, parts: &Vec<Vec<char>>) -> (r: String)
    requires
        texts(parts@) == pieces(ip@, '.'),
    ensures
        r@ == invalid_ip_message(ip@),
{
    let mut message = "invalid ip address: ".to_owned();
    let listed = list_as_debug(parts);
    message.append(listed.as_str());
    message
}

/// Reads a dotted IPv4 address such as `127.0.0.1`.
pub fn string_to_ip(ip: &str) -> (r: Result<[u8; 4], String>)
    ensures
        match r {
            Ok(bytes) => ip_of(ip@) == Some(bytes@),
            Err(message) => ip_of(ip@) is None && message@ == invalid_ip_message(ip@),
        },
{
    let text = chars_of(ip);
    let parts = split_text(&text, '.');
    assert(texts(parts@) =~= pieces(ip@, '.'));
    if parts.len() != 4 {
        return Err(invalid_ip(ip, &parts));
    }
    let first = match parse_octet(&parts[0]) {
        Some(byte) => byte,
        None => { return Err(invalid_ip(ip, &parts)); },
    };
    let second = match parse_octet(&parts[1]) {
        Some(byte) => byte,
        None => { return Err(invalid_ip(ip, &parts)); },
    };
    let third = match parse_octet(&parts[2]) {
        Some(byte) => byte,
        None => { return Err(invalid_ip(ip, &parts)); },
    };
    let fourth = match parse_octet(&parts[3]) {
        Some(byte) => byte,
        None => { return Err(invalid_ip(ip, &parts)); },
    };
    let bytes: [u8; 4] = [first, second, third, fourth];
    assert(bytes@ =~= seq![first, second, third, fourth]);
    Ok(bytes)
}

} // verus!
