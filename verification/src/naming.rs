//! Worker and server identities: decimal rendering of a numeric suffix
//! and the fixed name prefixes. Every rendered name is pinned, character
//! by character, to its spec-level sequence.

use crate::rng;
use vstd::prelude::*;
use vstd::string::StrSliceExecFns;
use vstd::string::StringExecFns;

verus! {

/// The decimal digit character for `d`.
pub open spec fn digit_char(d: nat) -> char {
    if d == 0 {
        '0'
    } else if d == 1 {
        '1'
    } else if d == 2 {
        '2'
    } else if d == 3 {
        '3'
    } else if d == 4 {
        '4'
    } else if d == 5 {
        '5'
    } else if d == 6 {
        '6'
    } else if d == 7 {
        '7'
    } else if d == 8 {
        '8'
    } else {
        '9'
    }
}

/// The decimal digits of `n`, most significant first, with no leading
/// zeroes (a single `'0'` for zero).
pub open spec fn decimal_digits(n: nat) -> Seq<char>
    decreases n,
{
    if n < 10 {
        seq![digit_char(n)]
    } else {
        decimal_digits(n / 10).push(digit_char(n % 10))
    }
}

/// The one-character string for the decimal digit `d`.
fn digit_str(d: u64) -> (r: &'static str)
    requires
        d < 10,
    ensures
        r@ == seq![digit_char(d as nat)],
{
    proof {
        reveal_strlit("0");
        reveal_strlit("1");
        reveal_strlit("2");
        reveal_strlit("3");
        reveal_strlit("4");
        reveal_strlit("5");
        reveal_strlit("6");
        reveal_strlit("7");
        reveal_strlit("8");
        reveal_strlit("9");
    }
    let r = if d == 0 {
        "0"
    } else if d == 1 {
        "1"
    } else if d == 2 {
        "2"
    } else if d == 3 {
        "3"
    } else if d == 4 {
        "4"
    } else if d == 5 {
        "5"
    } else if d == 6 {
        "6"
    } else if d == 7 {
        "7"
    } else if d == 8 {
        "8"
    } else {
        "9"
    };
    proof {
        assert(r@ =~= seq![digit_char(d as nat)]);
    }
    r
}

/// Render `n` in decimal.
pub fn u64_to_decimal(n: u64) -> (s: String)
    ensures
        s@ == decimal_digits(n as nat),
    decreases n,
{
    if n < 10 {
        digit_str(n).to_owned()
    } else {
        let mut s = u64_to_decimal(n / 10);
        s.append(digit_str(n % 10));
        proof {
            assert(decimal_digits((n as nat) / 10).push(digit_char((n as nat) % 10))
                =~= decimal_digits((n as nat) / 10) + seq![digit_char((n as nat) % 10)]);
        }
        s
    }
}

/// The name a client pool tags its requests with.
pub open spec fn client_name_seq(suffix: nat) -> Seq<char> {
    "Client-"@ + decimal_digits(suffix)
}

/// The name one worker tags its requests with.
pub open spec fn thread_name_seq(suffix: nat) -> Seq<char> {
    "Thread-"@ + decimal_digits(suffix)
}

/// The name a responder announces itself with.
pub open spec fn server_name_seq(suffix: nat) -> Seq<char> {
    "Server-"@ + decimal_digits(suffix)
}

/// The client name with the given suffix.
pub fn client_name(suffix: u8) -> (s: String)
    ensures
        s@ == client_name_seq(suffix as nat),
{
    let mut s = "Client-".to_owned();
    s.append(u64_to_decimal(suffix as u64).as_str());
    s
}

/// The worker name with the given suffix.
pub fn thread_name(suffix: u8) -> (s: String)
    ensures
        s@ == thread_name_seq(suffix as nat),
{
    let mut s = "Thread-".to_owned();
    s.append(u64_to_decimal(suffix as u64).as_str());
    s
}

/// The server name with the given suffix.
pub fn server_name(suffix: u32) -> (s: String)
    ensures
        s@ == server_name_seq(suffix as nat),
{
    let mut s = "Server-".to_owned();
    s.append(u64_to_decimal(suffix as u64).as_str());
    s
}

/// A client name with a random one-byte suffix.
pub fn generate_client_name() -> (s: String)
    ensures
        exists|b: nat| b < 256 && s@ == client_name_seq(b),
{
    let b = rng::random_name_suffix();
    let s = client_name(b);
    proof {
        assert(b < 256 && s@ == client_name_seq(b as nat));
    }
    s
}

/// A worker name with a random one-byte suffix.
pub fn generate_thread_name() -> (s: String)
    ensures
        exists|b: nat| b < 256 && s@ == thread_name_seq(b),
{
    let b = rng::random_name_suffix();
    let s = thread_name(b);
    proof {
        assert(b < 256 && s@ == thread_name_seq(b as nat));
    }
    s
}

/// A server name with a random suffix.
pub fn generate_server_name() -> (s: String)
    ensures
        exists|b: nat| b <= u32::MAX && s@ == server_name_seq(b),
{
    let b = rng::random_wide_suffix();
    let s = server_name(b);
    proof {
        assert(b <= u32::MAX && s@ == server_name_seq(b as nat));
    }
    s
}

} // verus!
