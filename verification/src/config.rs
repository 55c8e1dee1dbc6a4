//! The service's configuration: where it listens and where it logs, and the
//! checks on the values it is made from.

use vstd::prelude::*;
use vstd::string::*;

verus! {

/// The port to listen on where none is given.
pub const DEFAULT_PORT: &'static str = "80";

/// The address to bind to where none is given.
pub const DEFAULT_BIND_ADDRESS: &'static str = "0.0.0.0";

/// Log output.
#[derive(Debug, Copy, Clone, Eq, PartialEq, Hash, Structural)]
pub enum LogOutput {
    /// No log messages at all.
    Silent,
    /// Log to the standard error output.
    Stderr,
    /// Log to the system log.
    Syslog,
}

/// An IP address, by its octets in network order.
#[derive(Debug, Copy, Clone, Eq, PartialEq, Hash)]
pub enum Host {
    /// An IPv4 address.
    V4([u8; 4]),
    /// An IPv6 address.
    V6([u8; 16]),
}

/// An address to listen on.
#[derive(Debug, Copy, Clone, Eq, PartialEq, Hash)]
pub struct BindAddress {
    /// The address of the interface.
    pub host: Host,
    /// The port.
    pub port: u16,
}

/// Whether `c` is a decimal digit.
pub open spec fn is_digit(c: char) -> bool {
    '0' <= c && c <= '9'
}

/// Whether `s` is made of decimal digits only.
pub open spec fn all_digits(s: Seq<char>) -> bool {
    forall|i: int| 0 <= i < s.len() ==> is_digit(#[trigger] s[i])
}

/// The number that a string of decimal digits writes.
pub open spec fn digits_value(s: Seq<char>) -> int
    decreases s.len(),
{
    if s.len() == 0 {
        0
    } else {
        digits_value(s.drop_last()) * 10 + (s.last() as int - '0' as int)
    }
}

/// `s` without the one plus sign that may lead it.
pub open spec fn unsigned_part(s: Seq<char>) -> Seq<char> {
    if s.len() > 0 && s[0] == '+' {
        s.drop_first()
    } else {
        s
    }
}

/// The port that `s` writes: decimal digits, at least one, behind at most one
/// plus sign, and a value that fits 16 bits. `None` for any other string.
pub open spec fn spec_parse_port(s: Seq<char>) -> Option<u16> {
    let digits = unsigned_part(s);
    if digits.len() > 0 && all_digits(digits) && digits_value(digits) <= u16::MAX {
        Some(digits_value(digits) as u16)
    } else {
        None
    }
}

/// Where to log: being quiet wins over logging to the standard error
/// output, and the system log is what is left.
pub open spec fn spec_log_output(quiet: bool, log_stderr: bool) -> LogOutput {
    if quiet {
        LogOutput::Silent
    } else if log_stderr {
        LogOutput::Stderr
    } else {
        LogOutput::Syslog
    }
}

proof fn lemma_digits_value_grows(s: Seq<char>, k: int)
    requires
        all_digits(s),
        0 <= k <= s.len(),
    ensures
        0 <= digits_value(s.take(k)) <= digits_value(s),
    decreases s.len() - k,
{
    lemma_digits_value_nonnegative(s.take(k));
    if k < s.len() {
        lemma_digits_value_grows(s, k + 1);
        assert(s.take(k + 1).drop_last() =~= s.take(k));
        assert(is_digit(s[k]));
    } else {
        assert(s.take(k) =~= s);
    }
}

proof fn lemma_digits_value_nonnegative(s: Seq<char>)
    requires
        all_digits(s),
    ensures
        0 <= digits_value(s),
    decreases s.len(),
{
    if s.len() > 0 {
        lemma_digits_value_nonnegative(s.drop_last());
        assert(is_digit(s[s.len() - 1]));
    }
}

/// Reads a port number as [`spec_parse_port`] says.
pub fn parse_port(port: &str) -> (r: Option<u16>)
    ensures
        r == spec_parse_port(port@),
{
    let n: usize = port.unicode_len();
    let start: usize = if n > 0 && port.get_char(0) == '+' {
        1
    } else {
        0
    };
    let ghost digits = unsigned_part(port@);
    assert(digits =~= port@.subrange(start as int, n as int));
    if start == n {
        return None;
    }
    let mut value: u32 = 0;
    let mut i: usize = start;
    while i < n
        invariant
            start <= i <= n,
            n == port@.len(),
            digits == unsigned_part(port@),
            digits == port@.subrange(start as int, n as int),
            all_digits(digits.take(i - start)),
            value == digits_value(digits.take(i - start)),
            value <= u16::MAX,
        decreases n - i,
    {
        let c: char = port.get_char(i);
        assert(digits[i - start] == c);
        if !('0' <= c && c <= '9') {
            assert(!is_digit(digits[i - start]));
            return None;
        }
        proof {
            let longer = digits.take(i - start + 1);
            assert(longer.drop_last() =~= digits.take(i - start));
            assert(longer.last() == c);
            assert forall|j: int| 0 <= j < longer.len() implies is_digit(#[trigger] longer[j]) by {
                if j < i - start {
                    assert(longer[j] == digits.take(i - start)[j]);
                }
            }
        }
        value = value * 10 + (c as u32 - '0' as u32);
        if value > 65535 {
            proof {
                if all_digits(digits) {
                    lemma_digits_value_grows(digits, i - start + 1);
                }
            }
            return None;
        }
        i += 1;
    }
    assert(digits.take(n - start) =~= digits);
    Some(value as u16)
}

/// Port validator.
pub fn port_validator(port: String) -> (r: Result<(), String>)
    ensures
        r is Ok <==> spec_parse_port(port@) is Some,
        r matches Err(message) ==> message@ == "invalid port"@,
{
    match parse_port(port.as_str()) {
        Some(_) => Ok(()),
        None => Err(String::from_str("invalid port")),
    }
}

impl LogOutput {
    /// Picks the log output from the two switches of the command line.
    pub fn select(quiet: bool, log_stderr: bool) -> (r: LogOutput)
        ensures
            r == spec_log_output(quiet, log_stderr),
    {
        if quiet {
            LogOutput::Silent
        } else if log_stderr {
            LogOutput::Stderr
        } else {
            LogOutput::Syslog
        }
    }
}

/// Application configuration.
#[derive(Debug, Copy, Clone, Eq, PartialEq, Hash)]
pub struct Config {
    bind_address: BindAddress,
    log_output: LogOutput,
}

impl Config {
    /// The address that the configuration holds.
    pub closed spec fn spec_bind_address(&self) -> BindAddress {
        self.bind_address
    }

    /// The log output that the configuration holds.
    pub closed spec fn spec_log_output(&self) -> LogOutput {
        self.log_output
    }

    /// Create a new configuration from the values of the command line.
    pub fn new(host: Host, port: u16, quiet: bool, log_stderr: bool) -> (r: Config)
        ensures
            r.spec_bind_address() == (BindAddress { host, port }),
            r.spec_log_output() == spec_log_output(quiet, log_stderr),
    {
        Config {
            bind_address: BindAddress { host, port },
            log_output: LogOutput::select(quiet, log_stderr),
        }
    }

    /// Get bind address.
    pub fn bind_address(&self) -> (r: BindAddress)
        ensures
            r == self.spec_bind_address(),
    {
        self.bind_address
    }

    /// Get the log output.
    pub fn log_output(&self) -> (r: LogOutput)
        ensures
            r == self.spec_log_output(),
    {
        self.log_output
    }
}

} // verus!
