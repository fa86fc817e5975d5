//! Protocol numbers and the hardware address shared by the layers.

use crate::error::{Error, Layer};
use crate::text::{join_decimal, joined};
use core::cmp::Ordering;
use vstd::prelude::*;

verus! {

#[allow(non_upper_case_globals)]
pub const NETWORK_PROTOCOL_IPv4: u16 = 0x0800;

#[allow(non_upper_case_globals)]
pub const NETWORK_PROTOCOL_IPv6: u16 = 0x86DD;

/// The ether-type of ARP.
pub const NETWORK_PROTOCOL_ARP: u16 = 0x0806;

/// The protocol number of UDP.
pub const TRANSPORT_PROTOCOL_UDP: u8 = 0x11;

/// The protocol number of TCP.
pub const TRANSPORT_PROTOCOL_TCP: u8 = 0x06;

/// The number of bytes in a hardware address.
pub const MAC_ADDRESS_SIZE: usize = 6;

/// A hardware address: six bytes, compared and ordered byte by byte.
#[derive(Debug, Copy, Clone, Ord, Eq)]
pub struct MacAddress {
    data: [u8; 6],
}

/// The first index from `i` on at which two byte strings of one length
/// differ; their length if there is none.
pub open spec fn mismatch(a: Seq<u8>, b: Seq<u8>, i: int) -> int
    decreases a.len() - i,
{
    if i < 0 || i >= a.len() || i >= b.len() {
        a.len() as int
    } else if a[i] != b[i] {
        i
    } else {
        mismatch(a, b, i + 1)
    }
}

/// How two byte strings of one length compare: as the bytes do in which
/// they first differ.
pub open spec fn byte_order(a: Seq<u8>, b: Seq<u8>) -> Ordering {
    let k = mismatch(a, b, 0);
    if k >= a.len() {
        Ordering::Equal
    } else if a[k] < b[k] {
        Ordering::Less
    } else {
        Ordering::Greater
    }
}

/// Up to their first mismatch two byte strings agree, and they have none
/// exactly if they are equal.
pub proof fn lemma_mismatch(a: Seq<u8>, b: Seq<u8>, i: int)
    requires
        a.len() == b.len(),
        0 <= i <= a.len(),
    ensures
        i <= mismatch(a, b, i) <= a.len(),
        forall|k: int| i <= k < mismatch(a, b, i) ==> a[k] == b[k],
        mismatch(a, b, i) < a.len() ==> a[mismatch(a, b, i)] != b[mismatch(a, b, i)],
        i == 0 ==> (mismatch(a, b, i) == a.len() <==> a == b),
    decreases a.len() - i,
{
    if i < a.len() && a[i] == b[i] {
        lemma_mismatch(a, b, i + 1);
    }
    if i == 0 && mismatch(a, b, i) == a.len() {
        assert(a =~= b);
    }
}

/// Byte strings of one length are equal exactly if they compare as equal,
/// and swapping them turns less into greater.
pub proof fn lemma_byte_order(a: Seq<u8>, b: Seq<u8>)
    requires
        a.len() == b.len(),
    ensures
        byte_order(a, b) == Ordering::Equal <==> a == b,
        byte_order(a, b) == Ordering::Less <==> byte_order(b, a) == Ordering::Greater,
{
    lemma_mismatch(a, b, 0);
    lemma_mismatch(b, a, 0);
    let k = mismatch(a, b, 0);
    let j = mismatch(b, a, 0);
    if k < a.len() && j < a.len() {
        if k < j {
            assert(b[k] == a[k]);
        }
        if j < k {
            assert(a[j] == b[j]);
        }
    }
}

impl PartialEq for MacAddress {
    fn eq(&self, other: &Self) -> (r: bool) {
        proof {
            lemma_mismatch(self.data@, other.data@, 0);
        }
        self.first_difference(other) >= 6
    }
}

impl vstd::std_specs::cmp::PartialEqSpecImpl for MacAddress {
    open spec fn obeys_eq_spec() -> bool {
        true
    }

    open spec fn eq_spec(&self, other: &Self) -> bool {
        self@ == other@
    }
}

impl PartialOrd for MacAddress {
    fn partial_cmp(&self, other: &Self) -> (r: Option<Ordering>) {
        let k = self.first_difference(other);
        if k >= 6 {
            Some(Ordering::Equal)
        } else if self.data[k] < other.data[k] {
            Some(Ordering::Less)
        } else {
            Some(Ordering::Greater)
        }
    }
}

impl vstd::std_specs::cmp::PartialOrdSpecImpl for MacAddress {
    open spec fn obeys_partial_cmp_spec() -> bool {
        true
    }

    open spec fn partial_cmp_spec(&self, other: &Self) -> Option<Ordering> {
        Some(byte_order(self@, other@))
    }
}

impl MacAddress {
    /// The six bytes of the address.
    pub closed spec fn view(&self) -> Seq<u8> {
        self.data@
    }

    /// The address that `data` spells out, for a caller that has already
    /// cut `data` to six bytes.
    pub fn from_bytes_unchecked(data: &[u8]) -> (r: Self)
        requires
            data@.len() == MAC_ADDRESS_SIZE,
        ensures
            r@ == data@,
    {
        let r = Self { data: [data[0], data[1], data[2], data[3], data[4], data[5]] };
        assert(r.data@ =~= data@);
        r
    }

    /// The address in the first six bytes of `data`; fails where `data` is
    /// shorter.
    pub fn from_bytes(data: &[u8]) -> (r: Result<Self, Error>)
        ensures
            data@.len() >= MAC_ADDRESS_SIZE ==> (r matches Ok(address) && address@
                == data@.subrange(0, MAC_ADDRESS_SIZE as int)),
            data@.len() < MAC_ADDRESS_SIZE ==> r == Err::<Self, Error>(
                Error::TooShort {
                    layer: Layer::MacAddress,
                    needed: MAC_ADDRESS_SIZE,
                    got: data@.len() as usize,
                },
            ),
    {
        if data.len() < MAC_ADDRESS_SIZE {
            Err(
                Error::TooShort {
                    layer: Layer::MacAddress,
                    needed: MAC_ADDRESS_SIZE,
                    got: data.len(),
                },
            )
        } else {
            let address = Self { data: [data[0], data[1], data[2], data[3], data[4], data[5]] };
            assert(address.data@ =~= data@.subrange(0, MAC_ADDRESS_SIZE as int));
            Ok(address)
        }
    }

    /// The first index at which the address differs from `other`; 6 if
    /// they are equal.
    fn first_difference(&self, other: &Self) -> (r: usize)
        ensures
            r == mismatch(self@, other@, 0),
            r <= 6,
    {
        let mut i: usize = 0;
        while i < 6
            invariant
                i <= 6,
                self.data@.len() == 6,
                other.data@.len() == 6,
                mismatch(self.data@, other.data@, 0) == mismatch(self.data@, other.data@, i as int),
            decreases 6 - i,
        {
            if self.data[i] != other.data[i] {
                return i;
            }
            i += 1;
        }
        i
    }

    /// The six bytes of the address, first byte first.
    pub fn octets(&self) -> (r: [u8; 6])
        ensures
            r@ == self@,
    {
        self.data
    }

    /// The address as text: its bytes in decimal with colons between.
    pub fn to_text(&self) -> (r: String)
        ensures
            r@ == joined(self@, seq![':']),
    {
        proof {
            reveal_strlit(":");
        }
        assert(":"@ =~= seq![':']);
        join_decimal(self.data.as_slice(), ":")
    }
}

} // verus!
