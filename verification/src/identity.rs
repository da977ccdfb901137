//! Device identity: the hardware address behind a transport id.
//!
//! Some platforms hide the hardware address of an accessory, so it is
//! recovered from manufacturer advertisement data: a two-byte little-endian
//! prefix concatenated with a required four-byte suffix forms the six-byte
//! address. Resolution is best-effort and retried until it succeeds once;
//! after that the address is immutable for the life of the session.

use vstd::prelude::*;

verus! {

/// A hardware address, once resolved; `Unknown` until then.
#[derive(Clone, Debug)]
pub enum MacAddress {
    Known(Vec<u8>),
    Unknown,
}

impl MacAddress {
    /// A known address holds exactly six bytes.
    pub open spec fn wf(self) -> bool {
        self matches MacAddress::Known(b) ==> b@.len() == 6
    }

    /// Whether the address is still unresolved.
    pub fn is_unknown(&self) -> (r: bool)
        ensures
            r == (self is Unknown),
    {
        match self {
            MacAddress::Unknown => true,
            MacAddress::Known(_) => false,
        }
    }
}

/// The ASCII code of the lower-case hex digit for a nibble.
pub open spec fn hex_digit(n: u8) -> u8 {
    if n < 10 {
        (0x30 + n) as u8
    } else {
        (0x57 + n) as u8
    }
}

/// The two lower-case hex digits of a byte.
pub open spec fn byte_hex(b: u8) -> Seq<u8> {
    seq![hex_digit(b / 16), hex_digit(b % 16)]
}

/// The ASCII rendering of an address: six colon-separated hex pairs for a
/// known one, the word "Unknown" otherwise.
pub open spec fn spec_mac_display(m: MacAddress) -> Seq<u8> {
    match m {
        MacAddress::Known(b) => byte_hex(b@[0]) + seq![0x3a] + byte_hex(b@[1]) + seq![0x3a]
            + byte_hex(b@[2]) + seq![0x3a] + byte_hex(b@[3]) + seq![0x3a] + byte_hex(b@[4])
            + seq![0x3a] + byte_hex(b@[5]),
        MacAddress::Unknown => seq![0x55, 0x6e, 0x6b, 0x6e, 0x6f, 0x77, 0x6e],
    }
}

fn hex_digit_of(n: u8) -> (r: u8)
    requires
        n < 16,
    ensures
        r == hex_digit(n),
{
    if n < 10 {
        0x30 + n
    } else {
        0x57 + n
    }
}

fn push_byte_hex(out: &mut Vec<u8>, b: u8)
    ensures
        final(out)@ == old(out)@ + byte_hex(b),
{
    out.push(hex_digit_of(b / 16));
    out.push(hex_digit_of(b % 16));
    proof {
        assert(out@ =~= old(out)@ + byte_hex(b));
    }
}

impl MacAddress {
    /// ASCII rendering of the address: six colon-separated lower-case hex
    /// pairs, or the word "Unknown" while unresolved.
    pub fn display_bytes(&self) -> (r: Vec<u8>)
        requires
            self.wf(),
        ensures
            r@ == spec_mac_display(*self),
    {
        let mut out: Vec<u8> = Vec::new();
        match self {
            MacAddress::Known(b) => {
                push_byte_hex(&mut out, b[0]);
                out.push(0x3a);
                push_byte_hex(&mut out, b[1]);
                out.push(0x3a);
                push_byte_hex(&mut out, b[2]);
                out.push(0x3a);
                push_byte_hex(&mut out, b[3]);
                out.push(0x3a);
                push_byte_hex(&mut out, b[4]);
                out.push(0x3a);
                push_byte_hex(&mut out, b[5]);
                proof {
                    assert(out@ =~= spec_mac_display(*self));
                }
            },
            MacAddress::Unknown => {
                out.push(0x55);
                out.push(0x6e);
                out.push(0x6b);
                out.push(0x6e);
                out.push(0x6f);
                out.push(0x77);
                out.push(0x6e);
                proof {
                    assert(out@ =~= spec_mac_display(*self));
                }
            },
        }
        out
    }
}

/// The ASCII label discovery gives a new session: the rendered hardware
/// address when it is known, the placeholder "New LED" otherwise.
pub open spec fn spec_session_display_name(m: MacAddress) -> Seq<u8> {
    match m {
        MacAddress::Known(_) => spec_mac_display(m),
        MacAddress::Unknown => seq![0x4e, 0x65, 0x77, 0x20, 0x4c, 0x45, 0x44],
    }
}

/// The label a freshly discovered session is presented under.
pub fn session_display_name(mac: &MacAddress) -> (r: Vec<u8>)
    requires
        mac.wf(),
    ensures
        r@ == spec_session_display_name(*mac),
{
    match mac {
        MacAddress::Known(_) => mac.display_bytes(),
        MacAddress::Unknown => {
            let mut out: Vec<u8> = Vec::new();
            out.push(0x4e);
            out.push(0x65);
            out.push(0x77);
            out.push(0x20);
            out.push(0x4c);
            out.push(0x45);
            out.push(0x44);
            proof {
                assert(out@ =~= spec_session_display_name(*mac));
            }
            out
        },
    }
}

/// The six address bytes formed from one manufacturer data entry: the
/// little-endian bytes of the prefix, then the four suffix bytes.
pub open spec fn mac_bytes(prefix: u16, suffix: Seq<u8>) -> Seq<u8> {
    seq![
        (prefix & 0xff) as u8,
        ((prefix >> 8) & 0xff) as u8,
        suffix[0],
        suffix[1],
        suffix[2],
        suffix[3],
    ]
}

/// The address recovered from a list of manufacturer data entries: the first
/// entry whose suffix has exactly four bytes, if any.
pub open spec fn spec_resolve_mac(entries: Seq<(u16, Vec<u8>)>) -> Option<Seq<u8>>
    decreases entries.len(),
{
    if entries.len() == 0 {
        None
    } else if entries[0].1@.len() == 4 {
        Some(mac_bytes(entries[0].0, entries[0].1@))
    } else {
        spec_resolve_mac(entries.drop_first())
    }
}

/// Recover the hardware address from manufacturer advertisement data, if a
/// well-formed entry is present.
pub fn resolve_mac(entries: &Vec<(u16, Vec<u8>)>) -> (r: Option<Vec<u8>>)
    ensures
        match r {
            Some(mac) => spec_resolve_mac(entries@) == Some(mac@) && mac@.len() == 6,
            None => spec_resolve_mac(entries@) is None,
        },
{
    let mut i: usize = 0;
    proof {
        assert(entries@.skip(0) =~= entries@);
    }
    while i < entries.len()
        invariant
            i <= entries@.len(),
            spec_resolve_mac(entries@) == spec_resolve_mac(entries@.skip(i as int)),
        decreases entries@.len() - i,
    {
        let suffix_len = entries[i].1.len();
        if suffix_len == 4 {
            let prefix = entries[i].0;
            proof {
                assert(prefix & 0xff < 256) by (bit_vector);
                assert((prefix >> 8) & 0xff < 256) by (bit_vector);
            }
            let mut mac: Vec<u8> = Vec::new();
            mac.push((prefix & 0xff) as u8);
            mac.push(((prefix >> 8) & 0xff) as u8);
            mac.push(entries[i].1[0]);
            mac.push(entries[i].1[1]);
            mac.push(entries[i].1[2]);
            mac.push(entries[i].1[3]);
            proof {
                assert(entries@.skip(i as int)[0] == entries@[i as int]);
                assert(mac@ =~= mac_bytes(entries@[i as int].0, entries@[i as int].1@));
            }
            return Some(mac);
        }
        proof {
            assert(entries@.skip(i as int)[0] == entries@[i as int]);
            assert(entries@.skip(i as int).drop_first() =~= entries@.skip(i + 1));
        }
        i = i + 1;
    }
    None
}

} // verus!
