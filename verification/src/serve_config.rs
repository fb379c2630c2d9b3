//! Configuration of the development server: defaults, resolution of a
//! partially written configuration file, and the lines that report it.

use vstd::prelude::*;
use vstd::string::*;
use crate::text::{joined, push_char};

verus! {

/// The `[serve]` section of the development configuration.
pub struct ServeConfig {
    pub address: String,
    pub port: u16,
    pub open: bool,
}

/// The development configuration file.
pub struct Config {
    pub serve: ServeConfig,
}

/// A `[serve]` section as written in a configuration file, where every
/// key may be missing.
pub struct ServeSection {
    pub address: Option<String>,
    pub port: Option<u16>,
    pub open: Option<bool>,
}

/// The address served when the configuration names none: "127.0.0.1".
pub fn default_address() -> (r: String)
    ensures
        r@ == "127.0.0.1"@,
{
    String::from_str("127.0.0.1")
}

/// The port served when the configuration names none: 8080.
pub fn default_port() -> (r: u16)
    ensures
        r == 8080,
{
    8080
}

/// Whether to open a browser when the configuration does not say: yes.
pub fn default_open() -> (r: bool)
    ensures
        r,
{
    true
}

impl ServeConfig {
    /// Whether `c` holds the default settings: address "127.0.0.1", port
    /// 8080, open a browser.
    pub open spec fn is_default(c: ServeConfig) -> bool {
        &&& c.address@ == "127.0.0.1"@
        &&& c.port == 8080
        &&& c.open
    }

    /// Resolves a written `[serve]` section: every missing key takes its
    /// default.
    pub fn from_section(section: ServeSection) -> (r: ServeConfig)
        ensures
            r.address@ == (match section.address {
                Some(a) => a@,
                None => "127.0.0.1"@,
            }),
            r.port == (match section.port {
                Some(p) => p,
                None => 8080,
            }),
            r.open == (match section.open {
                Some(o) => o,
                None => true,
            }),
    {
        let address = match section.address {
            Some(a) => a,
            None => default_address(),
        };
        let port = match section.port {
            Some(p) => p,
            None => default_port(),
        };
        let open = match section.open {
            Some(o) => o,
            None => default_open(),
        };
        ServeConfig { address, port, open }
    }

    /// The lines that report the configuration to the development scripts:
    /// `SERVE_ADDRESS=<address>`, `SERVE_PORT=<port in decimal>` and
    /// `SERVE_OPEN=<true or false>`.
    pub fn output_lines(&self) -> (lines: Vec<String>)
        ensures
            lines@.len() == 3,
            lines@[0]@ == "SERVE_ADDRESS="@ + self.address@,
            lines@[1]@ == "SERVE_PORT="@ + decimal_text(self.port as nat),
            lines@[2]@ == "SERVE_OPEN="@ + bool_text(self.open),
    {
        let mut lines: Vec<String> = Vec::new();
        lines.push(joined("SERVE_ADDRESS=", self.address.as_str()));
        let mut port_line = String::from_str("SERVE_PORT=");
        push_decimal(&mut port_line, self.port);
        lines.push(port_line);
        let open_text = if self.open {
            "true"
        } else {
            "false"
        };
        lines.push(joined("SERVE_OPEN=", open_text));
        lines
    }
}

impl Default for ServeConfig {
    fn default() -> (r: Self)
        ensures
            Self::is_default(r),
    {
        ServeConfig { address: default_address(), port: default_port(), open: default_open() }
    }
}

impl Config {
    /// Resolves a configuration file: a missing `[serve]` section takes the
    /// default section, and missing keys in it take their defaults.
    pub fn from_document(serve: Option<ServeSection>) -> (r: Config)
        ensures
            match serve {
                Some(section) => {
                    &&& r.serve.address@ == (match section.address {
                        Some(a) => a@,
                        None => "127.0.0.1"@,
                    })
                    &&& r.serve.port == (match section.port {
                        Some(p) => p,
                        None => 8080,
                    })
                    &&& r.serve.open == (match section.open {
                        Some(o) => o,
                        None => true,
                    })
                },
                None => ServeConfig::is_default(r.serve),
            },
    {
        match serve {
            Some(section) => Config { serve: ServeConfig::from_section(section) },
            None => Config { serve: ServeConfig::default() },
        }
    }
}

impl Default for Config {
    fn default() -> (r: Self)
        ensures
            ServeConfig::is_default(r.serve),
    {
        Config { serve: ServeConfig::default() }
    }
}

/// The configuration file read when no path is given on the command line:
/// "config/development.toml".
pub fn config_path(first_arg: Option<String>) -> (r: String)
    ensures
        r@ == (match first_arg {
            Some(a) => a@,
            None => "config/development.toml"@,
        }),
{
    match first_arg {
        Some(a) => a,
        None => String::from_str("config/development.toml"),
    }
}

/// The character of a decimal digit `d` (0 to 9).
pub open spec fn digit_char(d: nat) -> char {
    (48 + d) as char
}

/// The decimal notation of `n`, without leading zeros.
pub open spec fn decimal_text(n: nat) -> Seq<char>
    decreases n,
{
    if n < 10 {
        seq![digit_char(n)]
    } else {
        decimal_text(n / 10).push(digit_char(n % 10))
    }
}

/// The number that a string of decimal digits denotes.
pub open spec fn decimal_value(s: Seq<char>) -> nat
    decreases s.len(),
{
    if s.len() == 0 {
        0
    } else {
        decimal_value(s.drop_last()) * 10 + ((s.last() as u32 - 48) as nat)
    }
}

/// The text of a boolean: "true" or "false".
pub open spec fn bool_text(b: bool) -> Seq<char> {
    if b {
        "true"@
    } else {
        "false"@
    }
}

fn digit(d: u16) -> (c: char)
    requires
        d < 10,
    ensures
        c == digit_char(d as nat),
{
    ((d as u8) + 48u8) as char
}

/// Appends the decimal notation of `n` to `out`.
fn push_decimal(out: &mut String, n: u16)
    ensures
        final(out)@ == old(out)@ + decimal_text(n as nat),
    decreases n,
{
    if n >= 10 {
        push_decimal(out, n / 10);
    }
    push_char(out, digit(n % 10));
    proof {
        if n >= 10 {
            assert(old(out)@ + decimal_text(n as nat) =~= old(out)@ + decimal_text((n / 10) as nat)
                + seq![digit_char((n % 10) as nat)]);
        } else {
            assert(old(out)@ + decimal_text(n as nat) =~= old(out)@.push(digit_char(n as nat)));
        }
    }
}

} // verus!
