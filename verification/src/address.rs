//! Hardware addresses of adapters and devices, and how they are written out.

use vstd::prelude::*;

verus! {

/// Six-byte Bluetooth hardware address, most significant byte first.
#[derive(Clone, Copy, Debug, PartialEq, Eq, Hash)]
pub struct Address(pub [u8; 6]);

/// Kind of address a controller or a remote device uses.
#[derive(Clone, Copy, Debug, PartialEq, Eq, Hash)]
pub enum AddressType {
    /// Classic Bluetooth (BR/EDR) address.
    BrEdr,
    /// Low Energy public address.
    LePublic,
    /// Low Energy random address.
    LeRandom,
}

/// Upper-case hexadecimal digit for a value below sixteen.
pub open spec fn upper_hex_digit(n: int) -> char {
    if n == 0 {
        '0'
    } else if n == 1 {
        '1'
    } else if n == 2 {
        '2'
    } else if n == 3 {
        '3'
    } else if n == 4 {
        '4'
    } else if n == 5 {
        '5'
    } else if n == 6 {
        '6'
    } else if n == 7 {
        '7'
    } else if n == 8 {
        '8'
    } else if n == 9 {
        '9'
    } else if n == 10 {
        'A'
    } else if n == 11 {
        'B'
    } else if n == 12 {
        'C'
    } else if n == 13 {
        'D'
    } else if n == 14 {
        'E'
    } else {
        'F'
    }
}

/// Colon-separated text of an address: each byte as two upper-case
/// hexadecimal digits, the first byte first.
pub open spec fn address_text(bytes: Seq<u8>) -> Seq<char> {
    Seq::new(
        17,
        |i: int|
            if i % 3 == 2 {
                ':'
            } else if i % 3 == 0 {
                upper_hex_digit(bytes[i / 3] as int / 16)
            } else {
                upper_hex_digit(bytes[i / 3] as int % 16)
            },
    )
}

/// Text by which the Bluetooth stack names an address type.
pub open spec fn address_type_text(kind: AddressType) -> Seq<char> {
    match kind {
        AddressType::BrEdr => "br/edr"@,
        AddressType::LePublic => "public"@,
        AddressType::LeRandom => "random"@,
    }
}

/// The integer a hardware address stands for, read as a 48-bit number
/// with the first byte most significant.
pub open spec fn address_key(bytes: Seq<u8>) -> int {
    bytes[0] as int * 0x100_0000_0000 + bytes[1] as int * 0x1_0000_0000 + bytes[2] as int
        * 0x100_0000 + bytes[3] as int * 0x1_0000 + bytes[4] as int * 0x100 + bytes[5] as int
}

/// Two addresses with the same key are the same address.
pub proof fn lemma_address_key_injective(a: Seq<u8>, b: Seq<u8>)
    requires
        a.len() == 6,
        b.len() == 6,
        address_key(a) == address_key(b),
    ensures
        a == b,
{
    assert(a[5] == b[5]);
    assert(a[4] == b[4]);
    assert(a[3] == b[3]);
    assert(a[2] == b[2]);
    assert(a[1] == b[1]);
    assert(a[0] == b[0]);
    assert(a =~= b);
}

impl Address {
    /// Wraps six bytes as an address.
    pub fn new(addr: [u8; 6]) -> (address: Address)
        ensures
            address.0 == addr,
    {
        Address(addr)
    }

    /// The bytes of the address as a sequence.
    pub open spec fn bytes(&self) -> Seq<u8> {
        self.0@
    }

    /// Key under which a registry files this address.
    pub fn key(&self) -> (key: u64)
        ensures
            key == address_key(self.bytes()),
    {
        let b = &self.0;
        (b[0] as u64) * 0x100_0000_0000 + (b[1] as u64) * 0x1_0000_0000 + (b[2] as u64)
            * 0x100_0000 + (b[3] as u64) * 0x1_0000 + (b[4] as u64) * 0x100 + (b[5] as u64)
    }

    /// Writes the address out as the Bluetooth stack does.
    ///
    /// Trusted: calls `Display` of `bluer::Address`, which writes the six
    /// bytes in order, each as two upper-case hexadecimal digits, with a
    /// colon between neighbours.
    #[verifier::external_body]
    pub(crate) fn format(&self) -> (text: String)
        ensures
            text@ == address_text(self.bytes()),
    {
        bluer::Address::new(self.0).to_string()
    }
}

impl AddressType {
    /// Writes the address type out as the Bluetooth stack does.
    ///
    /// Trusted: calls `Display` of `bluer::AddressType`, which gives
    /// `br/edr`, `public` or `random`.
    #[verifier::external_body]
    pub(crate) fn format(&self) -> (text: String)
        ensures
            text@ == address_type_text(*self),
    {
        match self {
            AddressType::BrEdr => bluer::AddressType::BrEdr,
            AddressType::LePublic => bluer::AddressType::LePublic,
            AddressType::LeRandom => bluer::AddressType::LeRandom,
        }.to_string()
    }
}

} // verus!
