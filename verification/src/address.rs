//! Bluetooth addresses.

use vstd::prelude::*;
use crate::hex::{bluetooth_address, colon_hex, law_addresses_read_back};
use crate::outside::{address_from_text, address_text};
use crate::text::{blank, digit_char, law_trimming_cuts_the_ends, trim, trimmed, white_space};

verus! {

/// A Bluetooth address: six bytes, in the order in which they are written.
pub type Address = [u8; 6];

/// The six bytes of an address as one number.
pub open spec fn address_key(a: Seq<u8>) -> u64 {
    (a[0] * 0x100_0000_0000 + a[1] * 0x1_0000_0000 + a[2] * 0x100_0000 + a[3] * 0x1_0000 + a[4]
        * 0x100 + a[5]) as u64
}

/// The six bytes of an address as one number.
pub fn key_of(a: &Address) -> (k: u64)
    ensures
        k == address_key(a@),
{
    a[0] as u64 * 0x100_0000_0000 + a[1] as u64 * 0x1_0000_0000 + a[2] as u64 * 0x100_0000 + a[3] as u64
        * 0x1_0000 + a[4] as u64 * 0x100 + a[5] as u64
}

/// Two addresses are the same exactly when their numbers are.
pub proof fn law_key_identifies_address(a: Seq<u8>, b: Seq<u8>)
    requires
        a.len() == 6,
        b.len() == 6,
    ensures
        address_key(a) == address_key(b) <==> a == b,
{
    if address_key(a) == address_key(b) {
        let a1 = a[0] * 0x100 + a[1];
        let a2 = a1 * 0x100 + a[2];
        let a3 = a2 * 0x100 + a[3];
        let a4 = a3 * 0x100 + a[4];
        let b1 = b[0] * 0x100 + b[1];
        let b2 = b1 * 0x100 + b[2];
        let b3 = b2 * 0x100 + b[3];
        let b4 = b3 * 0x100 + b[4];
        assert(address_key(a) == a4 * 0x100 + a[5]);
        assert(address_key(b) == b4 * 0x100 + b[5]);
        lemma_last_byte(a4, a[5], b4, b[5]);
        lemma_last_byte(a3, a[4], b3, b[4]);
        lemma_last_byte(a2, a[3], b2, b[3]);
        lemma_last_byte(a1, a[2], b1, b[2]);
        lemma_last_byte(a[0] as int, a[1], b[0] as int, b[1]);
        assert(a =~= b);
    }
}

proof fn lemma_last_byte(m: int, x: u8, n: int, y: u8)
    requires
        m * 0x100 + x == n * 0x100 + y,
    ensures
        m == n,
        x == y,
{
}

/// Whether two addresses are the same.
pub fn same_address(a: &Address, b: &Address) -> (r: bool)
    ensures
        r == (a@ == b@),
{
    proof {
        law_key_identifies_address(a@, b@);
    }
    key_of(a) == key_of(b)
}

/// Whether `a` is the address `00:00:00:00:00:00`, which stands for any device.
pub open spec fn is_any(a: Seq<u8>) -> bool {
    a == seq![0u8, 0u8, 0u8, 0u8, 0u8, 0u8]
}

/// The address that the record of the last connected device holds, if it holds one.
pub open spec fn last_connected(record: Seq<char>) -> Option<Seq<u8>> {
    bluetooth_address(trimmed(record))
}

/// Reads the record of the last connected device.
pub fn load_last_connected(record: &str) -> (r: Option<Address>)
    ensures
        r matches Some(a) ==> last_connected(record@) == Some(a@),
        r is None ==> last_connected(record@) is None,
{
    address_from_text(trim(record))
}

/// The record of the last connected device. Reading it gives the address back.
pub fn save_last_connected(address: &Address) -> (record: String)
    ensures
        record@ == colon_hex(address@),
        last_connected(record@) == Some(address@),
{
    let record: String = address_text(address);
    proof {
        lemma_colon_hex_is_trimmed(address@);
        law_addresses_read_back(address@);
    }
    record
}

proof fn lemma_colon_hex_is_trimmed(a: Seq<u8>)
    requires
        a.len() == 6,
    ensures
        trimmed(colon_hex(a)) == colon_hex(a),
{
    let s = colon_hex(a);
    assert(s[0] == digit_char(a[0] as int / 16));
    assert(s.last() == digit_char(a[5] as int % 16));
    assert(!white_space(s[0]));
    assert(!white_space(s.last()));
}

/// White space around the record of the last connected device makes no difference, and whoever reads
/// the record gets the address back that was written.
pub proof fn law_record_reads_back(front: Seq<char>, address: Seq<u8>, back: Seq<char>)
    requires
        address.len() == 6,
        blank(front),
        blank(back),
    ensures
        last_connected(front + colon_hex(address) + back) == Some(address),
{
    let s = colon_hex(address);
    assert(s[0] == digit_char(address[0] as int / 16));
    assert(s.last() == digit_char(address[5] as int % 16));
    law_trimming_cuts_the_ends(front, s, back);
    law_addresses_read_back(address);
}

/// What is saved of the last connected device is loaded again.
pub proof fn law_saved_device_is_loaded(
    address: Address,
    record: String,
    text: &str,
    r: Option<Address>,
)
    requires
        call_ensures(save_last_connected, (&address,), record),
        text@ == record@,
        call_ensures(load_last_connected, (text,), r),
    ensures
        r matches Some(a) && a@ == address@,
{
}

/// Two addresses are the same exactly if they have the same bytes.
pub proof fn law_same_address_has_the_same_bytes(a: Address, b: Address, r: bool)
    requires
        call_ensures(same_address, (&a, &b), r),
    ensures
        r <==> forall|i: int| 0 <= i < 6 ==> a@[i] == b@[i],
{
    if forall|i: int| 0 <= i < 6 ==> a@[i] == b@[i] {
        assert(a@ =~= b@);
    }
}

} // verus!
