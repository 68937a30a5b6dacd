//! What the library takes from other crates and from the standard library without proof.

use vstd::prelude::*;
use vstd::utf8::{decode_utf8, valid_utf8};
use crate::config::ConfigValue;
use crate::hex::{bluetooth_address, colon_hex, hardware_address};
use crate::settings::{Setting, Settings};
use crate::text::decimal;

verus! {

/// `bluer::Address::from_str`: the address that a text denotes, or nothing where the crate
/// reports an error. The text is split at colons, and each of six fields is read by
/// `u8::from_str_radix` in base sixteen.
#[verifier::external_body]
pub(crate) fn address_from_text(text: &str) -> (r: Option<[u8; 6]>)
    ensures
        r matches Some(a) ==> bluetooth_address(text@) == Some(a@),
        r is None ==> bluetooth_address(text@) is None,
{
    match text.parse::<bluer::Address>() {
        Ok(address) => Some(address.0),
        Err(_) => None,
    }
}

/// `bluer::Address` as `Display` writes it: six pairs of capital hexadecimal digits with colons
/// between them.
#[verifier::external_body]
pub(crate) fn address_text(address: &[u8; 6]) -> (s: String)
    ensures
        s@ == colon_hex(address@),
{
    bluer::Address::new(*address).to_string()
}

/// `mac_address::MacAddress::from_str`: the hardware address that a text denotes, or nothing
/// where the crate reports an error. The text is cut into fields, and the first six are read by
/// `u8::from_str_radix` in base sixteen.
#[verifier::external_body]
pub(crate) fn mac_from_text(text: &str) -> (r: Option<[u8; 6]>)
    ensures
        r matches Some(a) ==> hardware_address(text@) == Some(a@),
        r is None ==> hardware_address(text@) is None,
{
    match text.parse::<mac_address::MacAddress>() {
        Ok(mac) => Some(mac.bytes()),
        Err(_) => None,
    }
}

/// `mac_address::MacAddress` as `Display` writes it: six pairs of capital hexadecimal digits
/// with colons between them.
#[verifier::external_body]
pub(crate) fn mac_text(mac: &[u8; 6]) -> (s: String)
    ensures
        s@ == colon_hex(mac@),
{
    mac_address::MacAddress::new(*mac).to_string()
}

/// A duration as `humantime::format_duration` writes it, from its whole seconds and the
/// nanoseconds beyond them.
pub uninterp spec fn human_duration(secs: u64, nanos: u32) -> Seq<char>;

/// `humantime::format_duration`: a duration in words.
#[verifier::external_body]
pub(crate) fn duration_text(secs: u64, nanos: u32) -> (s: String)
    requires
        nanos < 1_000_000_000,
    ensures
        s@ == human_duration(secs, nanos),
{
    humantime::format_duration(std::time::Duration::new(secs, nanos)).to_string()
}

/// The letter of the binary unit of `1024^e` bytes.
pub open spec fn unit_letter(e: int) -> char {
    if e == 1 {
        'k'
    } else if e == 2 {
        'M'
    } else if e == 3 {
        'G'
    } else if e == 4 {
        'T'
    } else if e == 5 {
        'P'
    } else {
        'E'
    }
}

/// The power `base^e`.
pub open spec fn power(base: int, e: int) -> int
    decreases e,
{
    if e <= 0 {
        1
    } else {
        base * power(base, e - 1)
    }
}

/// Whether `1024^e` bytes is the unit for this number of bytes. The unit changes at powers of a
/// thousand; within a thousandth of such a power it may be the one below or the one above.
pub open spec fn unit_for(bytes: u64, e: int) -> bool {
    &&& 1 <= e <= 6
    &&& 999 * power(1000, e) <= 1000 * bytes
    &&& 1000 * bytes <= 1001 * power(1000, e + 1)
}

/// Whether `n` tenths of `1024^e` bytes is this number of bytes to the nearest tenth. From `2^53`
/// on the number is first rounded to one that a double holds, which is off by at most 1024.
pub open spec fn nearest_tenth(bytes: u64, e: int, n: nat) -> bool {
    let unit = power(1024, e);
    let slack: int = if bytes <= 0x20_0000_0000_0000 {
        0
    } else {
        10240
    };
    -(unit + 2 * slack) <= 2 * (n * unit - 10 * bytes) <= unit + 2 * slack
}

/// Whether `s` writes `bytes` as `n` tenths of the unit `1024^e`.
pub open spec fn size_in_unit(bytes: u64, s: Seq<char>, e: int, n: nat) -> bool {
    &&& unit_for(bytes, e)
    &&& nearest_tenth(bytes, e, n)
    &&& 9 <= n <= 10240
    &&& s == decimal(n / 10) + "."@ + decimal(n % 10) + " "@ + seq![unit_letter(e)] + "iB"@
}

/// Whether a text is how `bytesize` writes this number of bytes: below one kibibyte the number
/// itself, and otherwise a number with one decimal of a binary unit.
pub open spec fn size_reads(bytes: u64, s: Seq<char>) -> bool {
    if bytes < 1024 {
        s == decimal(bytes as nat) + " B"@
    } else {
        exists|e: int, n: nat| size_in_unit(bytes, s, e, n)
    }
}

/// `bytesize::ByteSize::to_string_as` with binary units: a number of bytes in words. Two things are
/// left open: the unit of a number within a thousandth of a power of a thousand, which rests on a
/// logarithm in floating point, and which way a number halfway between two tenths is rounded.
#[verifier::external_body]
pub(crate) fn size_text(bytes: u64) -> (s: String)
    ensures
        size_reads(bytes, s@),
{
    bytesize::ByteSize::b(bytes).to_string_as(true)
}

/// The text that `String::from_utf8_lossy` makes of bytes.
pub uninterp spec fn lossy_utf8(bytes: Seq<u8>) -> Seq<char>;

/// `String::from_utf8_lossy`: bytes as text, with a replacement character for what is not
/// valid UTF-8. Bytes that are valid are decoded as they are.
#[verifier::external_body]
pub(crate) fn text_from_utf8_lossy(bytes: &Vec<u8>) -> (s: String)
    ensures
        s@ == lossy_utf8(bytes@),
        valid_utf8(bytes@) ==> s@ == decode_utf8(bytes@),
{
    String::from_utf8_lossy(bytes).into_owned()
}

/// A text as `Debug` writes a `str`: in double quotes, with escapes.
pub uninterp spec fn quoted(text: Seq<char>) -> Seq<char>;

/// `Debug` of `str`: a text in double quotes, with escapes.
#[verifier::external_body]
pub(crate) fn quoted_text(text: &str) -> (s: String)
    ensures
        s@ == quoted(text@),
{
    format!("{:?}", text)
}

/// A TOML document that can be changed.
#[verifier::external_type_specification]
#[verifier::external_body]
pub struct ExDocumentMut(toml_edit::DocumentMut);

/// The values at the top of a document, under their names.
pub uninterp spec fn toml_contents(doc: toml_edit::DocumentMut) -> Map<Seq<char>, Setting>;

/// Whether a document was read from a text or begun anew, and since then only had plain values
/// set in it. Such a document is printed as valid TOML.
pub uninterp spec fn prints_back(doc: toml_edit::DocumentMut) -> bool;

/// The values at the top of the document that `toml_edit` reads from a text, if it reads one.
pub uninterp spec fn toml_settings(text: Seq<char>) -> Option<Map<Seq<char>, Setting>>;

/// `toml_edit::DocumentMut::from_str`: the document in a text, or nothing where the crate reports
/// an error.
#[verifier::external_body]
pub(crate) fn document_from_text(text: &str) -> (r: Option<toml_edit::DocumentMut>)
    ensures
        r matches Some(doc) ==> prints_back(doc) && toml_settings(text@) == Some(toml_contents(doc)),
        r is None ==> toml_settings(text@) is None,
{
    match text.parse::<toml_edit::DocumentMut>() {
        Ok(doc) => Some(doc),
        Err(_) => None,
    }
}

/// `toml_edit::DocumentMut::new`: a document that holds nothing.
#[verifier::external_body]
pub(crate) fn new_document() -> (doc: toml_edit::DocumentMut)
    ensures
        prints_back(doc),
        toml_contents(doc) == Settings::empty(),
{
    toml_edit::DocumentMut::new()
}

/// `toml_edit::value` of a `bool`, assigned through `IndexMut` of the document: what was under
/// the name is replaced, and everything else stays.
#[verifier::external_body]
pub(crate) fn set_flag(doc: &mut toml_edit::DocumentMut, key: &str, value: bool)
    ensures
        prints_back(*old(doc)) ==> prints_back(*final(doc)),
        toml_contents(*final(doc)) == toml_contents(*old(doc)).insert(key@, Setting::Flag(value)),
{
    doc[key] = toml_edit::value(value);
}

/// `toml_edit::value` of an `i64`, assigned as by [`set_flag`].
#[verifier::external_body]
pub(crate) fn set_number(doc: &mut toml_edit::DocumentMut, key: &str, value: i64)
    ensures
        prints_back(*old(doc)) ==> prints_back(*final(doc)),
        toml_contents(*final(doc)) == toml_contents(*old(doc)).insert(key@, Setting::Number(value)),
{
    doc[key] = toml_edit::value(value);
}

/// `toml_edit::value` of a `&str`, assigned as by [`set_flag`].
#[verifier::external_body]
pub(crate) fn set_text(doc: &mut toml_edit::DocumentMut, key: &str, value: &str)
    ensures
        prints_back(*old(doc)) ==> prints_back(*final(doc)),
        toml_contents(*final(doc)) == toml_contents(*old(doc)).insert(key@, Setting::Text(value@)),
{
    doc[key] = toml_edit::value(value);
}

/// `toml_edit::DocumentMut` as `Display` writes it: TOML from which `from_str` reads the same
/// values back. How the text is laid out is left open.
#[verifier::external_body]
pub(crate) fn document_text(doc: &toml_edit::DocumentMut) -> (s: String)
    requires
        prints_back(*doc),
    ensures
        toml_settings(s@) == Some(toml_contents(*doc)),
{
    doc.to_string()
}

/// A map that keeps its entries in the order of their insertion.
#[verifier::external_type_specification]
#[verifier::external_body]
#[verifier::reject_recursive_types(K)]
#[verifier::reject_recursive_types(V)]
#[verifier::reject_recursive_types(S)]
pub struct ExIndexMap<K, V, S>(indexmap::IndexMap<K, V, S>);

/// The entries of a map, in their order.
pub uninterp spec fn map_entries(m: indexmap::IndexMap<String, ConfigValue>) -> Seq<
    (Seq<char>, ConfigValue),
>;

/// `indexmap::IndexMap::new`: a map without entries.
#[verifier::external_body]
pub(crate) fn new_map() -> (m: indexmap::IndexMap<String, ConfigValue>)
    ensures
        map_entries(m).len() == 0,
{
    indexmap::IndexMap::new()
}

/// `indexmap::IndexMap::clone`, of which nothing is claimed.
pub assume_specification<K, V, S>[ <indexmap::IndexMap<K, V, S> as Clone>::clone ](
    m: &indexmap::IndexMap<K, V, S>,
) -> (r: indexmap::IndexMap<K, V, S>)
    where
        K: Clone,
        V: Clone,
        S: Clone,
;

} // verus!
