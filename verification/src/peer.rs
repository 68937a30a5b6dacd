//! Who is at the other end of a TCP connection: IP addresses, and the hardware address that the
//! neighbour table of the kernel holds for one.

use vstd::prelude::*;
use crate::hex::{colon_hex, hardware_address, law_addresses_read_back};
use crate::outside::{mac_from_text, mac_text};
use crate::text::{
    decimal,
    decimal_text,
    law_decimal_stands_for_its_number,
    numeral,
    split_words,
    texts,
    words,
};

verus! {

/// An IP address.
#[derive(Debug, Clone, Copy, PartialEq, Eq)]
pub enum PeerIp {
    V4([u8; 4]),
    V6([u8; 16]),
}

/// Whether an address means the machine itself: `127.x.x.x`, or `::1`.
pub open spec fn loopback(ip: PeerIp) -> bool {
    match ip {
        PeerIp::V4(o) => o@[0] == 127,
        PeerIp::V6(o) => o@[15] == 1 && forall|i: int| 0 <= i < 15 ==> o@[i] == 0,
    }
}

/// Whether an address means the machine itself.
pub fn is_loopback(ip: &PeerIp) -> (b: bool)
    ensures
        b == loopback(*ip),
{
    match ip {
        PeerIp::V4(o) => o[0] == 127,
        PeerIp::V6(o) => {
            let mut i: usize = 0;
            while i < 15
                invariant
                    i <= 15,
                    forall|k: int| 0 <= k < i ==> o@[k] == 0,
                    *ip == PeerIp::V6(*o),
                decreases 15 - i,
            {
                if o[i] != 0 {
                    return false;
                }
                i += 1;
            }
            o[15] == 1
        },
    }
}

/// Four bytes in dotted decimal notation.
pub open spec fn dotted(o: Seq<u8>) -> Seq<char> {
    decimal(o[0] as nat) + "."@ + decimal(o[1] as nat) + "."@ + decimal(o[2] as nat) + "."@ + decimal(
        o[3] as nat,
    )
}

/// An IPv4 address in dotted decimal notation.
pub fn ipv4_text(o: &[u8; 4]) -> (s: String)
    ensures
        s@ == dotted(o@),
{
    let mut s: String = decimal_text(o[0] as u64);
    s.append(".");
    s.append(decimal_text(o[1] as u64).as_str());
    s.append(".");
    s.append(decimal_text(o[2] as u64).as_str());
    s.append(".");
    s.append(decimal_text(o[3] as u64).as_str());
    s
}

/// The text in the hardware column of a row of the neighbour table, if the row is the one of
/// the address `ip`: the fourth column of a row of at least four whose first is `ip`.
pub open spec fn hardware_column(row: Seq<char>, ip: Seq<char>) -> Option<Seq<char>> {
    if words(row).len() >= 4 && words(row)[0] == ip {
        Some(words(row)[3])
    } else {
        None
    }
}

/// The text in the hardware column of a row of the neighbour table, if the row is the one of
/// the address `ip`.
pub fn hardware_text(row: &str, ip: &String) -> (r: Option<String>)
    ensures
        r matches Some(t) ==> hardware_column(row@, ip@) == Some(t@),
        r is None ==> hardware_column(row@, ip@) is None,
{
    let cols: Vec<String> = split_words(row);
    if cols.len() >= 4 && cols[0] == *ip {
        Some(cols[3].clone())
    } else {
        None
    }
}

/// The hardware address in a row of the neighbour table, if the row is the one of the address
/// `ip` and its hardware column can be read.
pub open spec fn hardware_of(row: Seq<char>, ip: Seq<char>) -> Option<Seq<u8>> {
    match hardware_column(row, ip) {
        Some(t) => hardware_address(t),
        None => None,
    }
}

/// The hardware address in the first of `rows` that holds one for the address `ip`.
pub open spec fn first_hardware(rows: Seq<Seq<char>>, ip: Seq<char>) -> Option<Seq<u8>>
    decreases rows.len(),
{
    if rows.len() == 0 {
        None
    } else if hardware_of(rows[0], ip) is Some {
        hardware_of(rows[0], ip)
    } else {
        first_hardware(rows.skip(1), ip)
    }
}

/// The hardware address that the neighbour table, given as its lines, holds for an address. The
/// first line of the table is a heading. The table is one of IPv4 addresses.
pub fn mac_from_ipv4(ip: &PeerIp, table: &Vec<String>) -> (r: Option<[u8; 6]>)
    ensures
        match *ip {
            PeerIp::V4(o) => match r {
                Some(mac) => first_hardware(texts(table@).skip(1), dotted(o@)) == Some(mac@),
                None => table@.len() == 0 || first_hardware(texts(table@).skip(1), dotted(o@)) is None,
            },
            PeerIp::V6(_) => r is None,
        },
        table@.len() == 0 ==> r is None,
{
    let octets: [u8; 4] = match ip {
        PeerIp::V4(o) => *o,
        PeerIp::V6(_) => return None,
    };
    let text: String = ipv4_text(&octets);
    let ghost rows = texts(table@);
    let mut i: usize = 1;
    while i < table.len()
        invariant
            1 <= i,
            i <= table.len() || table.len() == 0,
            rows == texts(table@),
            text@ == dotted(octets@),
            *ip == PeerIp::V4(octets),
            table.len() > 0 ==> first_hardware(rows.skip(1), text@) == first_hardware(
                rows.skip(i as int),
                text@,
            ),
        decreases table.len() - i,
    {
        assert(rows.skip(i as int).skip(1) == rows.skip(i + 1));
        if let Some(t) = hardware_text(table[i].as_str(), &text) {
            if let Some(mac) = mac_from_text(t.as_str()) {
                return Some(mac);
            }
        }
        i += 1;
    }
    None
}

/// The arguments with which the access point is told to drop the client with this hardware
/// address.
pub fn disassociate_args(mac: &[u8; 6]) -> (args: Vec<String>)
    ensures
        args@.len() == 2,
        args@[0]@ == "disassociate"@,
        args@[1]@ == colon_hex(mac@),
        hardware_address(args@[1]@) == Some(mac@),
{
    let mut args: Vec<String> = Vec::new();
    args.push("disassociate".to_owned());
    args.push(mac_text(mac));
    proof {
        law_addresses_read_back(mac@);
    }
    args
}

/// Rows of other addresses do not matter to a look-up.
pub proof fn law_other_rows_do_not_matter(
    before: Seq<Seq<char>>,
    row: Seq<char>,
    after: Seq<Seq<char>>,
    ip: Seq<char>,
)
    requires
        hardware_column(row, ip) is None,
    ensures
        first_hardware(before + seq![row] + after, ip) == first_hardware(before + after, ip),
    decreases before.len(),
{
    let with = before + seq![row] + after;
    let without = before + after;
    if before.len() == 0 {
        assert(with.skip(1) =~= without);
    } else {
        law_other_rows_do_not_matter(before.skip(1), row, after, ip);
        assert(with.skip(1) =~= before.skip(1) + seq![row] + after);
        assert(without.skip(1) =~= before.skip(1) + after);
    }
}

/// A row holds a hardware address for `ip` exactly if it has at least four columns, of which the
/// first is `ip` and the fourth can be read as such an address.
pub proof fn law_what_a_row_holds(row: Seq<char>, ip: Seq<char>)
    ensures
        ({
            let columns = words(row);
            if columns.len() >= 4 && columns[0] == ip {
                hardware_of(row, ip) == hardware_address(columns[3])
            } else {
                hardware_of(row, ip) is None
            }
        }),
{
}

/// The first row that holds a hardware address for `ip` counts, and nothing is found exactly if no
/// row does.
pub proof fn law_first_row_counts(rows: Seq<Seq<char>>, ip: Seq<char>)
    ensures
        first_hardware(rows, ip) is None <==> forall|i: int|
            0 <= i < rows.len() ==> hardware_of(#[trigger] rows[i], ip) is None,
        forall|i: int|
            0 <= i < rows.len() && hardware_of(#[trigger] rows[i], ip) is Some && (forall|j: int|
                0 <= j < i ==> hardware_of(#[trigger] rows[j], ip) is None) ==> first_hardware(
                rows,
                ip,
            ) == hardware_of(rows[i], ip),
    decreases rows.len(),
{
    if rows.len() > 0 {
        let rest = rows.skip(1);
        law_first_row_counts(rest, ip);
        assert forall|i: int| 0 < i < rows.len() implies #[trigger] rows[i] == rest[i - 1] by {}
        if hardware_of(rows[0], ip) is None {
            assert forall|i: int|
                0 <= i < rows.len() && hardware_of(#[trigger] rows[i], ip) is Some && (forall|j: int|
                    0 <= j < i ==> hardware_of(#[trigger] rows[j], ip) is None) implies first_hardware(
                rows,
                ip,
            ) == hardware_of(rows[i], ip) by {
                assert(rows[i] == rest[i - 1]);
                assert forall|j: int| 0 <= j < i - 1 implies hardware_of(
                    #[trigger] rest[j],
                    ip,
                ) is None by {
                    assert(rest[j] == rows[j + 1]);
                }
            }
            if forall|i: int| 0 <= i < rest.len() ==> hardware_of(#[trigger] rest[i], ip) is None {
                assert forall|i: int| 0 <= i < rows.len() implies hardware_of(
                    #[trigger] rows[i],
                    ip,
                ) is None by {
                    if i > 0 {
                        assert(rows[i] == rest[i - 1]);
                    }
                }
            }
            if forall|i: int| 0 <= i < rows.len() ==> hardware_of(#[trigger] rows[i], ip) is None {
                assert forall|i: int| 0 <= i < rest.len() implies hardware_of(
                    #[trigger] rest[i],
                    ip,
                ) is None by {
                    assert(rest[i] == rows[i + 1]);
                }
            }
        }
    }
}

/// Whether a text is four numbers written in the usual way, with dots between them.
pub open spec fn four_numbers(
    s: Seq<char>,
    p: Seq<char>,
    q: Seq<char>,
    r: Seq<char>,
    t: Seq<char>,
) -> bool {
    s == p.push('.') + q.push('.') + r.push('.') + t
}

/// An address in dotted decimal notation gives its four bytes in order.
pub proof fn law_dotted_notation_gives_the_bytes(o: Seq<u8>)
    ensures
        exists|p: Seq<char>, q: Seq<char>, r: Seq<char>, t: Seq<char>|
            {
                &&& #[trigger] four_numbers(dotted(o), p, q, r, t)
                &&& numeral(p, o[0] as nat)
                &&& numeral(q, o[1] as nat)
                &&& numeral(r, o[2] as nat)
                &&& numeral(t, o[3] as nat)
            },
{
    reveal_strlit(".");
    let p = decimal(o[0] as nat);
    let q = decimal(o[1] as nat);
    let r = decimal(o[2] as nat);
    let t = decimal(o[3] as nat);
    law_decimal_stands_for_its_number(o[0] as nat);
    law_decimal_stands_for_its_number(o[1] as nat);
    law_decimal_stands_for_its_number(o[2] as nat);
    law_decimal_stands_for_its_number(o[3] as nat);
    assert(dotted(o) =~= p.push('.') + q.push('.') + r.push('.') + t);
    assert(four_numbers(dotted(o), p, q, r, t));
}

/// The addresses of the machine itself are those from 127.0.0.0 to 127.255.255.255, and ::1.
pub proof fn law_which_addresses_are_local(a: [u8; 4], b: [u8; 16])
    ensures
        loopback(PeerIp::V4(a)) <==> a@[0] == 127,
        loopback(PeerIp::V6(b)) <==> b@.take(15) == Seq::new(15, |i: int| 0u8) && b@[15] == 1,
{
    let zeros = Seq::new(15, |i: int| 0u8);
    if b@.take(15) == zeros {
        assert forall|i: int| 0 <= i < 15 implies b@[i] == 0 by {
            assert(b@.take(15)[i] == zeros[i]);
        }
    }
    if loopback(PeerIp::V6(b)) {
        assert(b@.take(15) =~= zeros);
    }
}

/// Only an IPv4 address is looked up, and the heading of the table is passed over: what is found is
/// what the first of the rows below it that holds anything for the address holds.
pub proof fn law_lookup_passes_over_the_heading(
    o: [u8; 4],
    table: Vec<String>,
    r: Option<[u8; 6]>,
    i: int,
)
    requires
        call_ensures(mac_from_ipv4, (&PeerIp::V4(o), &table), r),
        0 < i < table@.len(),
        forall|j: int| 0 < j < i ==> hardware_of((#[trigger] table@[j])@, dotted(o@)) is None,
        hardware_of(table@[i]@, dotted(o@)) is Some,
    ensures
        r matches Some(mac) && hardware_of(table@[i]@, dotted(o@)) == Some(mac@),
{
    let rows = texts(table@).skip(1);
    law_first_row_counts(rows, dotted(o@));
    assert(rows[i - 1] == table@[i]@);
    assert forall|j: int| 0 <= j < i - 1 implies hardware_of(
        #[trigger] rows[j],
        dotted(o@),
    ) is None by {
        assert(rows[j] == table@[j + 1]@);
    }
}

/// Nothing is found where no row below the heading holds anything for the address, nor for any
/// address but one of IPv4.
pub proof fn law_nothing_is_found_without_a_row(
    ip: PeerIp,
    table: Vec<String>,
    r: Option<[u8; 6]>,
)
    requires
        call_ensures(mac_from_ipv4, (&ip, &table), r),
        ip matches PeerIp::V4(o) ==> forall|j: int|
            0 < j < table@.len() ==> hardware_of((#[trigger] table@[j])@, dotted(o@)) is None,
    ensures
        r is None,
{
    if let PeerIp::V4(o) = ip {
        if table@.len() > 0 {
            let rows = texts(table@).skip(1);
            law_first_row_counts(rows, dotted(o@));
            assert forall|j: int| 0 <= j < rows.len() implies hardware_of(
                #[trigger] rows[j],
                dotted(o@),
            ) is None by {
                assert(rows[j] == table@[j + 1]@);
            }
        }
    }
}

/// The access point is told to drop the client whose address this is, and no other.
pub proof fn law_dropped_client_is_the_one_named(mac: [u8; 6], args: Vec<String>)
    requires
        call_ensures(disassociate_args, (&mac,), args),
    ensures
        args@.len() == 2,
        args@[0]@ == "disassociate"@,
        hardware_address(args@[1]@) == Some(mac@),
{
}

} // verus!
