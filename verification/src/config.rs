use vstd::prelude::*;
use vstd::string::StrSliceExecFns;
use crate::errors::Error;
use crate::wire::{hex_char_val, hex_val};

verus! {

/// The service's startup configuration, as plain values. Reading the
/// environment and command line that supply them is the embedding
/// program's business; assembling and checking them is done here.
#[derive(Debug, Clone)]
pub struct Config {
    pub log_level: String,
    pub port: u16,
    pub db_user: String,
    pub db_password: String,
    pub db_host: String,
    pub db_port: u16,
    pub db_name: String,
}

/// Whether every character of `s` is a decimal digit.
pub open spec fn dec_seq_ok(s: Seq<char>) -> bool {
    forall|i: int| 0 <= i < s.len() ==> 0 <= #[trigger] hex_val(s[i]) <= 9
}

/// The value of a sequence of decimal digits, most significant first.
pub open spec fn dec_seq_value(s: Seq<char>) -> int
    decreases s.len(),
{
    if s.len() == 0 {
        0
    } else {
        dec_seq_value(s.drop_last()) * 10 + hex_val(s.last())
    }
}

/// Whether `s` is the decimal rendering of a sixteen-bit number: nonempty,
/// all decimal digits, and within range.
pub open spec fn is_u16_string(s: Seq<char>) -> bool {
    s.len() > 0 && dec_seq_ok(s) && dec_seq_value(s) <= u16::MAX
}

/// Reads a port number from its decimal rendering. It succeeds exactly on
/// a nonempty, all-decimal string whose value fits sixteen bits; everything
/// else is the malformed-input kind, whose detail a caller may echo.
pub fn parse_u16(s: &str) -> (r: Result<u16, Error>)
    ensures
        r matches Ok(v) ==> is_u16_string(s@) && v as int == dec_seq_value(s@),
        r matches Err(e) ==> !is_u16_string(s@) && (e matches Error::MalformedInput(m)
            && m@ == "cannot parse parameter"@),
{
    let n = s.unicode_len();
    if n == 0 {
        return Err(Error::MalformedInput("cannot parse parameter".to_owned()));
    }
    let mut acc: u32 = 0;
    let mut over: bool = false;
    let mut i: usize = 0;
    while i < n
        invariant
            n as nat == s@.len(),
            i <= n,
            dec_seq_ok(s@.take(i as int)),
            !over ==> acc as int == dec_seq_value(s@.take(i as int)) && acc <= 65535,
            over ==> dec_seq_value(s@.take(i as int)) > 65535,
        decreases n - i,
    {
        let c = s.get_char(i);
        let d: u8 = match hex_char_val(c) {
            Some(d) => d,
            None => {
                return Err(Error::MalformedInput("cannot parse parameter".to_owned()));
            },
        };
        if d > 9 {
            return Err(Error::MalformedInput("cannot parse parameter".to_owned()));
        }
        proof {
            assert(s@.take((i + 1) as int).drop_last() =~= s@.take(i as int));
        }
        if over {
        } else {
            let next: u32 = acc * 10 + (d as u32);
            if next > 65535 {
                over = true;
            } else {
                acc = next;
            }
        }
        i += 1;
    }
    proof {
        assert(s@.take(n as int) =~= s@);
    }
    if over {
        Err(Error::MalformedInput("cannot parse parameter".to_owned()))
    } else {
        Ok(acc as u16)
    }
}

impl Config {
    /// Assembles the configuration from the values read at startup. The
    /// port override and the database port arrive as text and must parse as
    /// sixteen-bit numbers; a missing port override falls back to the
    /// default.
    pub fn new(
        log_level: String,
        port: Option<String>,
        default_port: u16,
        db_user: String,
        db_password: String,
        db_host: String,
        db_port: String,
        db_name: String,
    ) -> (r: Result<Config, Error>)
        ensures
            r matches Ok(c) ==> {
                &&& c.log_level == log_level
                &&& match port {
                    Some(p) => is_u16_string(p@) && c.port as int == dec_seq_value(p@),
                    None => c.port == default_port,
                }
                &&& c.db_user == db_user
                &&& c.db_password == db_password
                &&& c.db_host == db_host
                &&& is_u16_string(db_port@) && c.db_port as int == dec_seq_value(db_port@)
                &&& c.db_name == db_name
            },
            r matches Err(e) ==> {
                &&& e is MalformedInput
                &&& !(match port {
                    Some(p) => is_u16_string(p@),
                    None => true,
                } && is_u16_string(db_port@))
            },
    {
        let port_value: u16 = match port {
            Some(p) => match parse_u16(p.as_str()) {
                Ok(v) => v,
                Err(e) => {
                    return Err(e);
                },
            },
            None => default_port,
        };
        let db_port_value: u16 = match parse_u16(db_port.as_str()) {
            Ok(v) => v,
            Err(e) => {
                return Err(e);
            },
        };
        Ok(
            Config {
                log_level,
                port: port_value,
                db_user,
                db_password,
                db_host,
                db_port: db_port_value,
                db_name,
            },
        )
    }
}

} // verus!
