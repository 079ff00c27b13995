//! Human-readable rendering of request addresses, for connection logs:
//! dotted decimal for IPv4, lowercase colon-separated hex for IPv6, and
//! lossy text for domain names.

use vstd::prelude::*;

use crate::codec::spec_port_of;
use crate::text::{decode_lossy, lossy_text};
use crate::types::AddrType;
use vstd::string::StringExecFns;

verus! {

/// The character for one digit value, lowercase for ten to fifteen.
pub open spec fn digit_char(d: u8) -> char {
    if d == 0 {
        '0'
    } else if d == 1 {
        '1'
    } else if d == 2 {
        '2'
    } else if d == 3 {
        '3'
    } else if d == 4 {
        '4'
    } else if d == 5 {
        '5'
    } else if d == 6 {
        '6'
    } else if d == 7 {
        '7'
    } else if d == 8 {
        '8'
    } else if d == 9 {
        '9'
    } else if d == 10 {
        'a'
    } else if d == 11 {
        'b'
    } else if d == 12 {
        'c'
    } else if d == 13 {
        'd'
    } else if d == 14 {
        'e'
    } else {
        'f'
    }
}

/// The decimal digits of a byte, no leading zeros.
pub open spec fn spec_dec_u8(n: u8) -> Seq<char> {
    if n < 10 {
        seq![digit_char(n)]
    } else if n < 100 {
        seq![digit_char(n / 10), digit_char(n % 10)]
    } else {
        seq![digit_char(n / 100), digit_char((n / 10) % 10), digit_char(n % 10)]
    }
}

/// The lowercase hex digits of a 16-bit value, no leading zeros.
pub open spec fn spec_hex_u16(n: u16) -> Seq<char> {
    if n < 16 {
        seq![digit_char(n as u8)]
    } else if n < 256 {
        seq![digit_char((n / 16) as u8), digit_char((n % 16) as u8)]
    } else if n < 4096 {
        seq![
            digit_char((n / 256) as u8),
            digit_char(((n / 16) % 16) as u8),
            digit_char((n % 16) as u8),
        ]
    } else {
        seq![
            digit_char((n / 4096) as u8),
            digit_char(((n / 256) % 16) as u8),
            digit_char(((n / 16) % 16) as u8),
            digit_char((n % 16) as u8),
        ]
    }
}

/// Four address bytes in dotted decimal.
pub open spec fn spec_v4_text(addr: Seq<u8>) -> Seq<char> {
    spec_dec_u8(addr[0]) + seq!['.'] + spec_dec_u8(addr[1]) + seq!['.'] + spec_dec_u8(addr[2])
        + seq!['.'] + spec_dec_u8(addr[3])
}

/// Sixteen address bytes as eight colon-separated hex segments.
pub open spec fn spec_v6_text(addr: Seq<u8>) -> Seq<char> {
    spec_hex_u16(spec_port_of(addr[0], addr[1])) + seq![':'] + spec_hex_u16(spec_port_of(addr[2], addr[3]))
        + seq![':'] + spec_hex_u16(spec_port_of(addr[4], addr[5])) + seq![':'] + spec_hex_u16(
        spec_port_of(addr[6], addr[7]),
    ) + seq![':'] + spec_hex_u16(spec_port_of(addr[8], addr[9])) + seq![':'] + spec_hex_u16(
        spec_port_of(addr[10], addr[11]),
    ) + seq![':'] + spec_hex_u16(spec_port_of(addr[12], addr[13])) + seq![':'] + spec_hex_u16(
        spec_port_of(addr[14], addr[15]),
    )
}

/// What an address renders to: decimal octets for IPv4, hex segments for
/// IPv6, and lossy text for a domain name's bytes.
pub open spec fn spec_pretty(addr_type: AddrType, addr: Seq<u8>) -> Seq<char> {
    match addr_type {
        AddrType::Domain => lossy_text(addr),
        AddrType::V4 => spec_v4_text(addr),
        AddrType::V6 => spec_v6_text(addr),
    }
}

fn digit_str(d: u8) -> (r: &'static str)
    requires
        d < 16,
    ensures
        r@ =~= seq![digit_char(d)],
{
    proof {
        reveal_strlit("0");
        reveal_strlit("1");
        reveal_strlit("2");
        reveal_strlit("3");
        reveal_strlit("4");
        reveal_strlit("5");
        reveal_strlit("6");
        reveal_strlit("7");
        reveal_strlit("8");
        reveal_strlit("9");
        reveal_strlit("a");
        reveal_strlit("b");
        reveal_strlit("c");
        reveal_strlit("d");
        reveal_strlit("e");
        reveal_strlit("f");
    }
    match d {
        0 => "0",
        1 => "1",
        2 => "2",
        3 => "3",
        4 => "4",
        5 => "5",
        6 => "6",
        7 => "7",
        8 => "8",
        9 => "9",
        10 => "a",
        11 => "b",
        12 => "c",
        13 => "d",
        14 => "e",
        _ => "f",
    }
}

fn push_dec_u8(s: &mut String, n: u8)
    ensures
        final(s)@ == old(s)@ + spec_dec_u8(n),
{
    if n >= 100 {
        s.append(digit_str(n / 100));
    }
    if n >= 10 {
        s.append(digit_str((n / 10) % 10));
    }
    s.append(digit_str(n % 10));
    proof {
        assert(final(s)@ =~= old(s)@ + spec_dec_u8(n));
    }
}

fn push_hex_u16(s: &mut String, n: u16)
    ensures
        final(s)@ == old(s)@ + spec_hex_u16(n),
{
    if n >= 4096 {
        s.append(digit_str((n / 4096) as u8));
    }
    if n >= 256 {
        s.append(digit_str(((n / 256) % 16) as u8));
    }
    if n >= 16 {
        s.append(digit_str(((n / 16) % 16) as u8));
    }
    s.append(digit_str((n % 16) as u8));
    proof {
        assert(final(s)@ =~= old(s)@ + spec_hex_u16(n));
    }
}

fn push_sep(s: &mut String, dot: bool)
    ensures
        dot ==> final(s)@ == old(s)@ + seq!['.'],
        !dot ==> final(s)@ == old(s)@ + seq![':'],
{
    proof {
        reveal_strlit(".");
        reveal_strlit(":");
    }
    if dot {
        s.append(".");
    } else {
        s.append(":");
    }
}

/// Render an address for a log line: dotted decimal for IPv4, lowercase
/// colon-separated hex for IPv6, lossy text for the bytes of a domain
/// name (passed without its length prefix).
pub fn pretty_print_addr(addr_type: &AddrType, addr: &[u8]) -> (r: String)
    requires
        addr_type is V4 ==> addr@.len() == 4,
        addr_type is V6 ==> addr@.len() == 16,
    ensures
        r@ == spec_pretty(*addr_type, addr@),
{
    match addr_type {
        AddrType::Domain => decode_lossy(addr),
        AddrType::V4 => {
            let mut s = String::new();
            push_dec_u8(&mut s, addr[0]);
            push_sep(&mut s, true);
            push_dec_u8(&mut s, addr[1]);
            push_sep(&mut s, true);
            push_dec_u8(&mut s, addr[2]);
            push_sep(&mut s, true);
            push_dec_u8(&mut s, addr[3]);
            proof {
                assert(s@ =~= spec_v4_text(addr@));
            }
            s
        },
        AddrType::V6 => {
            let mut s = String::new();
            push_hex_u16(&mut s, seg16(addr[0], addr[1]));
            push_sep(&mut s, false);
            push_hex_u16(&mut s, seg16(addr[2], addr[3]));
            push_sep(&mut s, false);
            push_hex_u16(&mut s, seg16(addr[4], addr[5]));
            push_sep(&mut s, false);
            push_hex_u16(&mut s, seg16(addr[6], addr[7]));
            push_sep(&mut s, false);
            push_hex_u16(&mut s, seg16(addr[8], addr[9]));
            push_sep(&mut s, false);
            push_hex_u16(&mut s, seg16(addr[10], addr[11]));
            push_sep(&mut s, false);
            push_hex_u16(&mut s, seg16(addr[12], addr[13]));
            push_sep(&mut s, false);
            push_hex_u16(&mut s, seg16(addr[14], addr[15]));
            proof {
                assert(s@ =~= spec_v6_text(addr@));
            }
            s
        },
    }
}

fn seg16(hi: u8, lo: u8) -> (s: u16)
    ensures
        s == spec_port_of(hi, lo),
{
    crate::codec::merge_port(hi, lo)
}

} // verus!
