//! Locally administered hardware addresses for a network interface.

use vstd::prelude::*;
use vstd::string::*;
use crate::text::{hex_pair, hex_pair_text, is_hex};

verus! {

/// The first octet of every address that this library generates: only the
/// bit that marks an address as locally administered is set in it.
pub const LOCAL_ADMIN_OCTET: u8 = 0x02;

/// Whether `b` is an ASCII letter or digit.
pub open spec fn is_alphanumeric(b: u8) -> bool {
    (0x30 <= b && b <= 0x39) || (0x41 <= b && b <= 0x5a) || (0x61 <= b && b <= 0x7a)
}

/// Six octets as text: two lower-case hexadecimal digits each, colons between.
pub open spec fn mac_text(octets: Seq<u8>) -> Seq<char>
    recommends
        octets.len() == 6,
{
    hex_pair(octets[0]) + seq![':'] + hex_pair(octets[1]) + seq![':'] + hex_pair(octets[2]) + seq![
        ':',
    ] + hex_pair(octets[3]) + seq![':'] + hex_pair(octets[4]) + seq![':'] + hex_pair(octets[5])
}

/// Whether `s` has the shape `xx:xx:xx:xx:xx:xx`, each `x` a lower-case
/// hexadecimal digit.
pub open spec fn is_mac_text(s: Seq<char>) -> bool {
    &&& s.len() == 17
    &&& forall|i: int|
        0 <= i < 17 ==> if i % 3 == 2 {
            #[trigger] s[i] == ':'
        } else {
            is_hex(s[i])
        }
}

/// Whether the bit that marks a locally administered address is set in the
/// first octet.
pub open spec fn has_local_bit(first: u8) -> bool {
    first & 0x02 == 0x02
}

/// A hardware address of six octets.
#[derive(Clone, Copy, Debug, PartialEq, Eq)]
pub struct MacAddress {
    pub octets: [u8; 6],
}

/// Random bytes from `rand`'s `Alphanumeric` distribution, drawn from the
/// thread-local generator with `DistString::sample_string`. The call returns
/// as many bytes as were asked for, each an ASCII letter or digit; which ones
/// is left open. rand stops the program where the operating system gives it
/// nothing to seed the generator with.
#[verifier::external_body]
fn sample_alphanumeric(len: usize) -> (bytes: Vec<u8>)
    ensures
        bytes@.len() == len,
        forall|i: int| 0 <= i < len ==> is_alphanumeric(#[trigger] bytes@[i]),
{
    let text = rand::distributions::DistString::sample_string(
        &rand::distributions::Alphanumeric,
        &mut rand::thread_rng(),
        len,
    );
    text.into_bytes()
}

impl MacAddress {
    /// Whether this address is locally administered.
    pub open spec fn is_locally_administered(&self) -> bool {
        has_local_bit(self.octets@[0])
    }

    /// The address whose first octet marks it as locally administered and
    /// whose other five octets are those of `tail`.
    pub fn locally_administered(tail: [u8; 5]) -> (address: MacAddress)
        ensures
            address.octets@ == seq![LOCAL_ADMIN_OCTET, tail@[0], tail@[1], tail@[2], tail@[3], tail@[4]],
            address.is_locally_administered(),
    {
        let address = MacAddress {
            octets: [LOCAL_ADMIN_OCTET, tail[0], tail[1], tail[2], tail[3], tail[4]],
        };
        assert(address.octets@ =~= seq![
            LOCAL_ADMIN_OCTET,
            tail@[0],
            tail@[1],
            tail@[2],
            tail@[3],
            tail@[4],
        ]);
        assert(has_local_bit(0x02u8)) by (bit_vector);
        address
    }

    /// A fresh locally administered address. Its last five octets come from
    /// the random source and are ASCII letters or digits.
    pub fn random() -> (address: MacAddress)
        ensures
            address.is_locally_administered(),
            address.octets@[0] == LOCAL_ADMIN_OCTET,
            forall|i: int| 1 <= i < 6 ==> is_alphanumeric(#[trigger] address.octets@[i]),
    {
        let sample = sample_alphanumeric(10);
        MacAddress::locally_administered([sample[0], sample[1], sample[2], sample[3], sample[4]])
    }

    /// The address as text, `xx:xx:xx:xx:xx:xx`.
    pub fn to_text(&self) -> (text: String)
        ensures
            text@ == mac_text(self.octets@),
            is_mac_text(text@),
    {
        let mut text = hex_pair_text(self.octets[0]);
        let mut i: usize = 1;
        while i < 6
            invariant
                1 <= i <= 6,
                text@ == mac_prefix(self.octets@, i as int),
            decreases 6 - i,
        {
            text.append(":");
            let pair = hex_pair_text(self.octets[i]);
            text.append(pair.as_str());
            proof {
                reveal_strlit(":");
                assert(":"@ =~= seq![':']);
            }
            i = i + 1;
        }
        proof {
            lemma_mac_prefix_whole(self.octets@);
            lemma_mac_text_shape(self.octets@);
        }
        text
    }
}

/// The text of the first `n` octets, colons between.
pub open spec fn mac_prefix(octets: Seq<u8>, n: int) -> Seq<char>
    decreases n,
{
    if n <= 1 {
        hex_pair(octets[0])
    } else {
        mac_prefix(octets, n - 1) + seq![':'] + hex_pair(octets[n - 1])
    }
}

/// Six octets written one after the other give the text of the address.
pub proof fn lemma_mac_prefix_whole(octets: Seq<u8>)
    ensures
        mac_prefix(octets, 6) == mac_text(octets),
{
    reveal_with_fuel(mac_prefix, 6);
}

/// Each half of a byte is written as one hexadecimal digit.
pub proof fn lemma_hex_pair_shape(b: u8)
    ensures
        hex_pair(b).len() == 2,
        is_hex(hex_pair(b)[0]),
        is_hex(hex_pair(b)[1]),
{
}

/// The text of any six octets has the shape of a hardware address.
pub proof fn lemma_mac_text_shape(octets: Seq<u8>)
    requires
        octets.len() == 6,
    ensures
        is_mac_text(mac_text(octets)),
{
    lemma_hex_pair_shape(octets[0]);
    lemma_hex_pair_shape(octets[1]);
    lemma_hex_pair_shape(octets[2]);
    lemma_hex_pair_shape(octets[3]);
    lemma_hex_pair_shape(octets[4]);
    lemma_hex_pair_shape(octets[5]);
    let s = mac_text(octets);
    assert(s.len() == 17);
    assert forall|i: int| 0 <= i < 17 implies if i % 3 == 2 {
        #[trigger] s[i] == ':'
    } else {
        is_hex(s[i])
    } by {
        if i == 0 || i == 1 {
        } else if i == 2 {
        } else if i == 3 || i == 4 {
        } else if i == 5 {
        } else if i == 6 || i == 7 {
        } else if i == 8 {
        } else if i == 9 || i == 10 {
        } else if i == 11 {
        } else if i == 12 || i == 13 {
        } else if i == 14 {
        } else {
        }
    }
}

} // verus!
