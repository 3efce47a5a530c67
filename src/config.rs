//! Server settings. Loading them from the environment is the application's
//! part; the library fixes the values that apply when nothing overrides them.

use vstd::prelude::*;

verus! {

pub const DEFAULT_PORT: u16 = 3000;

pub const DEFAULT_SDR_SAMPLE_RATE: u32 = 2400000;

/// Settings of the backend server.
#[derive(Debug)]
pub struct Config {
    pub port: u16,
    pub host: String,
    pub callsign: String,
    pub locator: String,
    pub sdr_enabled: bool,
    pub sdr_device: String,
    pub sdr_sample_rate: u32,
}

/// The settings in force when no source overrides any of them.
pub open spec fn is_default_settings(c: Config) -> bool {
    &&& c.port == DEFAULT_PORT
    &&& c.host@ == "0.0.0.0"@
    &&& c.callsign@ == "N0CALL"@
    &&& c.locator@ == "FN31"@
    &&& !c.sdr_enabled
    &&& c.sdr_device@ == "rtlsdr"@
    &&& c.sdr_sample_rate == DEFAULT_SDR_SAMPLE_RATE
}

impl Default for Config {
    fn default() -> (r: Config)
        ensures
            is_default_settings(r),
    {
        proof {
            reveal_strlit("0.0.0.0");
            reveal_strlit("N0CALL");
            reveal_strlit("FN31");
            reveal_strlit("rtlsdr");
        }
        Config {
            port: DEFAULT_PORT,
            host: "0.0.0.0".to_owned(),
            callsign: "N0CALL".to_owned(),
            locator: "FN31".to_owned(),
            sdr_enabled: false,
            sdr_device: "rtlsdr".to_owned(),
            sdr_sample_rate: DEFAULT_SDR_SAMPLE_RATE,
        }
    }
}

/// `s` split at its first `sep`, as `str::split_once` splits it.
pub open spec fn split_once_at(s: Seq<char>, sep: char) -> Option<(Seq<char>, Seq<char>)>
    decreases s.len(),
{
    if s.len() == 0 {
        None
    } else if s[0] == sep {
        Some((Seq::empty(), s.drop_first()))
    } else {
        match split_once_at(s.drop_first(), sep) {
            Some((a, b)) => Some((seq![s[0]] + a, b)),
            None => None,
        }
    }
}

/// The value of a string of decimal digits.
pub open spec fn decimal_value(d: Seq<char>) -> int
    decreases d.len(),
{
    if d.len() == 0 {
        0
    } else {
        decimal_value(d.drop_last()) * 10 + (d.last() as int - '0' as int)
    }
}

/// What `u16::from_str` reads: an optional `+`, then one or more decimal
/// digits whose value fits in a `u16`.
pub open spec fn u16_text(s: Seq<char>) -> Option<u16> {
    let d = if s.len() > 0 && s[0] == '+' { s.drop_first() } else { s };
    if d.len() > 0 && (forall|i: int| 0 <= i < d.len() ==> '0' <= #[trigger] d[i] <= '9')
        && decimal_value(d) <= u16::MAX {
        Some(decimal_value(d) as u16)
    } else {
        None
    }
}

/// The port a command line asks for: a first argument starting with
/// `--port` carries it after `=` (up to a further `=`), or, without `=`, the
/// second argument does.
pub open spec fn port_arg(args: Seq<Seq<char>>) -> Option<u16> {
    if args.len() > 1 && "--port"@.is_prefix_of(args[1]) {
        match split_once_at(args[1], '=') {
            Some((_, rest)) => u16_text(
                match split_once_at(rest, '=') {
                    Some((field, _)) => field,
                    None => rest,
                },
            ),
            None => if args.len() > 2 {
                u16_text(args[2])
            } else {
                None
            },
        }
    } else {
        None
    }
}

/// Relies on `str::starts_with`: whether `prefix` opens `s`.
#[verifier::external_body]
fn text_starts_with(s: &str, prefix: &str) -> (r: bool)
    ensures
        r == prefix@.is_prefix_of(s@),
{
    s.starts_with(prefix)
}

/// Relies on `str::split_once`: the text before and after the first `sep`.
#[verifier::external_body]
fn text_split_once<'a>(s: &'a str, sep: char) -> (r: Option<(&'a str, &'a str)>)
    ensures
        r matches Some((a, b)) ==> split_once_at(s@, sep) == Some((a@, b@)),
        r is None ==> split_once_at(s@, sep) is None,
{
    s.split_once(sep)
}

/// Relies on `str::parse::<u16>`: an optional `+` and decimal digits that fit.
#[verifier::external_body]
fn parse_u16(s: &str) -> (r: Option<u16>)
    ensures
        r == u16_text(s@),
{
    s.parse::<u16>().ok()
}

/// The port override on a command line (`prog --port=N` or `prog --port N`),
/// if one is given and reads as a port number.
pub fn port_from_args(args: &Vec<String>) -> (r: Option<u16>)
    ensures
        r == port_arg(args@.map_values(|a: String| a@)),
{
    let ghost views = args@.map_values(|a: String| a@);
    proof {
        reveal_strlit("--port");
    }
    if args.len() > 1 && text_starts_with(args[1].as_str(), "--port") {
        assert(views[1] == args@[1]@);
        match text_split_once(args[1].as_str(), '=') {
            Some((_, rest)) => match text_split_once(rest, '=') {
                Some((field, _)) => parse_u16(field),
                None => parse_u16(rest),
            },
            None => if args.len() > 2 {
                assert(views[2] == args@[2]@);
                parse_u16(args[2].as_str())
            } else {
                None
            },
        }
    } else {
        None
    }
}

} // verus!
