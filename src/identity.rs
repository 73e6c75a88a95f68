//! The broker id generated when no source supplies one: host name, process
//! id and creation time in seconds, joined by hyphens.

use vstd::prelude::*;
use vstd::string::{StrSliceExecFns, StringExecFns};

verus! {

pub open spec fn digit_char(d: nat) -> char {
    if d == 0 { '0' }
    else if d == 1 { '1' }
    else if d == 2 { '2' }
    else if d == 3 { '3' }
    else if d == 4 { '4' }
    else if d == 5 { '5' }
    else if d == 6 { '6' }
    else if d == 7 { '7' }
    else if d == 8 { '8' }
    else { '9' }
}

/// `n` written in decimal, without leading zeros.
pub open spec fn decimal_text(n: nat) -> Seq<char>
    decreases n,
{
    if n < 10 {
        seq![digit_char(n)]
    } else {
        decimal_text(n / 10).push(digit_char(n % 10))
    }
}

/// `host-pid-timestamp`.
pub open spec fn broker_id_text(host: Seq<char>, pid: nat, timestamp: nat) -> Seq<char> {
    host + seq!['-'] + decimal_text(pid) + seq!['-'] + decimal_text(timestamp)
}

fn digit_str(d: u64) -> (r: &'static str)
    requires
        d < 10,
    ensures
        r@ == seq![digit_char(d as nat)],
{
    match d {
        0 => {
            proof { reveal_strlit("0"); }
            "0"
        },
        1 => {
            proof { reveal_strlit("1"); }
            "1"
        },
        2 => {
            proof { reveal_strlit("2"); }
            "2"
        },
        3 => {
            proof { reveal_strlit("3"); }
            "3"
        },
        4 => {
            proof { reveal_strlit("4"); }
            "4"
        },
        5 => {
            proof { reveal_strlit("5"); }
            "5"
        },
        6 => {
            proof { reveal_strlit("6"); }
            "6"
        },
        7 => {
            proof { reveal_strlit("7"); }
            "7"
        },
        8 => {
            proof { reveal_strlit("8"); }
            "8"
        },
        _ => {
            proof { reveal_strlit("9"); }
            "9"
        },
    }
}

/// Appends `n` in decimal to `s`.
pub fn append_decimal(s: &mut String, n: u64)
    ensures
        final(s)@ == old(s)@ + decimal_text(n as nat),
    decreases n,
{
    if n >= 10 {
        append_decimal(s, n / 10);
        s.append(digit_str(n % 10));
        assert(decimal_text(n as nat) == decimal_text((n / 10) as nat).push(digit_char((n % 10) as nat)));
        assert(final(s)@ =~= old(s)@ + decimal_text(n as nat));
    } else {
        s.append(digit_str(n));
    }
}

/// `host-pid-timestamp`.
pub fn compose_broker_id(host: &str, pid: u32, timestamp: u64) -> (r: String)
    ensures
        r@ == broker_id_text(host@, pid as nat, timestamp as nat),
{
    let mut s = String::from_str(host);
    proof {
        reveal_strlit("-");
    }
    s.append("-");
    append_decimal(&mut s, pid as u64);
    s.append("-");
    append_decimal(&mut s, timestamp);
    assert(s@ =~= broker_id_text(host@, pid as nat, timestamp as nat));
    s
}

/// Relies on hostname::get: the machine's host name, or `None` when the
/// system call fails.
#[verifier::external_body]
fn host_name() -> Option<String> {
    match hostname::get() {
        Ok(h) => Some(h.to_string_lossy().into_owned()),
        Err(_) => None,
    }
}

/// The host part of a broker id: the name the lookup gave, or `unknown`.
pub open spec fn host_text(host: Option<String>) -> Seq<char> {
    match host {
        Some(h) => h@,
        None => "unknown"@,
    }
}

/// The broker id for the host name the lookup gave: `unknown` stands for
/// a failed lookup.
pub fn broker_id_for(host: Option<String>, pid: u32, timestamp: u64) -> (r: String)
    ensures
        r@ == broker_id_text(host_text(host), pid as nat, timestamp as nat),
{
    match host {
        Some(h) => compose_broker_id(h.as_str(), pid, timestamp),
        None => compose_broker_id("unknown", pid, timestamp),
    }
}

/// A broker id from this machine's host name (`unknown` when it cannot be
/// had), the process id `pid` and the creation time `timestamp` in seconds.
pub fn generate_broker_id(pid: u32, timestamp: u64) -> (r: String)
    ensures
        exists|host: Option<String>| r@ == broker_id_text(#[trigger] host_text(host), pid as nat, timestamp as nat),
        r@.len() > 0,
{
    let host = host_name();
    let ghost h = host;
    let r = broker_id_for(host, pid, timestamp);
    assert(r@ == broker_id_text(host_text(h), pid as nat, timestamp as nat));
    r
}

} // verus!
