//! Recognition of MAC addresses written as six colon-separated octets of one
//! or two hexadecimal digits, found anywhere inside a run of bytes.
use vstd::prelude::*;

verus! {

/// An ASCII hexadecimal digit, in either case.
pub open spec fn is_hex(b: u8) -> bool {
    (0x30 <= b <= 0x39) || (0x41 <= b <= 0x46) || (0x61 <= b <= 0x66)
}

/// Length of the octet starting at `p`: the run of hexadecimal digits there,
/// at most two long (zero when no digit stands at `p`).
pub open spec fn octet_len(s: Seq<u8>, p: int) -> int {
    if 0 <= p < s.len() && is_hex(s[p]) {
        if p + 1 < s.len() && is_hex(s[p + 1]) {
            2
        } else {
            1
        }
    } else {
        0
    }
}

/// Where a MAC address that still needs `k` octets after the one at `p` ends,
/// if one does: each octet but the last is followed by a colon.
pub open spec fn mac_end_from(s: Seq<u8>, p: int, k: nat) -> Option<int>
    decreases k,
{
    let l = octet_len(s, p);
    if l == 0 {
        None
    } else if k == 0 {
        Some(p + l)
    } else if p + l < s.len() && s[p + l] == 0x3a {
        mac_end_from(s, p + l + 1, (k - 1) as nat)
    } else {
        None
    }
}

/// The end of the MAC address that starts at `i`, if one starts there.
pub open spec fn mac_end_at(s: Seq<u8>, i: int) -> Option<int> {
    mac_end_from(s, i, 5)
}

pub open spec fn mac_at(s: Seq<u8>, i: int) -> bool {
    mac_end_at(s, i) is Some
}

/// `s` holds a MAC address somewhere.
pub open spec fn contains_mac(s: Seq<u8>) -> bool {
    exists|i: int| 0 <= i < s.len() && mac_at(s, i)
}

/// `s` is one MAC address and nothing else.
pub open spec fn is_mac(s: Seq<u8>) -> bool {
    mac_end_at(s, 0) == Some(s.len() as int)
}

/// The leftmost position at or after `i` where a MAC address starts.
pub open spec fn first_mac_from(s: Seq<u8>, i: int) -> Option<int>
    decreases s.len() - i,
{
    if i < 0 || i >= s.len() {
        None
    } else if mac_at(s, i) {
        Some(i)
    } else {
        first_mac_from(s, i + 1)
    }
}

/// The first MAC address written in `s`, as its bytes.
pub open spec fn first_mac(s: Seq<u8>) -> Option<Seq<u8>> {
    match first_mac_from(s, 0) {
        Some(i) => Some(s.subrange(i, mac_end_at(s, i).unwrap())),
        None => None,
    }
}

proof fn lemma_mac_end_bounds(s: Seq<u8>, p: int, k: nat)
    requires
        mac_end_from(s, p, k) is Some,
    ensures
        0 <= p < mac_end_from(s, p, k).unwrap() <= s.len(),
    decreases k,
{
    let l = octet_len(s, p);
    if k > 0 {
        lemma_mac_end_bounds(s, p + l + 1, (k - 1) as nat);
    }
}

proof fn lemma_first_mac_from(s: Seq<u8>, i: int)
    requires
        0 <= i,
    ensures
        first_mac_from(s, i) is None <==> (forall|j: int| i <= j < s.len() ==> !mac_at(s, j)),
        first_mac_from(s, i) matches Some(j) ==> i <= j < s.len() && mac_at(s, j) && (forall|
            k: int,
        | i <= k < j ==> !mac_at(s, k)),
    decreases s.len() - i,
{
    if i < s.len() && !mac_at(s, i) {
        lemma_first_mac_from(s, i + 1);
    }
}

/// The first MAC address of `s` is where one starts, ends where it ends, and
/// lies within `s`.
pub proof fn lemma_first_mac(s: Seq<u8>)
    ensures
        first_mac(s) is None <==> !contains_mac(s),
        first_mac_from(s, 0) matches Some(i) ==> 0 <= i < mac_end_at(s, i).unwrap() <= s.len(),
{
    lemma_first_mac_from(s, 0);
    if let Some(i) = first_mac_from(s, 0) {
        lemma_mac_end_bounds(s, i, 5);
    }
}

/// A MAC address standing alone is the first one found in it, whole.
pub proof fn lemma_is_mac_first(s: Seq<u8>)
    requires
        is_mac(s),
    ensures
        first_mac_from(s, 0) == Some(0int),
        first_mac(s) == Some(s),
{
    lemma_mac_end_bounds(s, 0, 5);
    assert(s.subrange(0, s.len() as int) =~= s);
}

proof fn lemma_mac_bytes_from(s: Seq<u8>, p: int, k: nat)
    requires
        mac_end_from(s, p, k) is Some,
    ensures
        forall|i: int|
            p <= i < mac_end_from(s, p, k).unwrap() ==> is_hex(#[trigger] s[i]) || s[i] == 0x3a,
        is_hex(s[mac_end_from(s, p, k).unwrap() - 1]),
    decreases k,
{
    let l = octet_len(s, p);
    if k > 0 {
        lemma_mac_bytes_from(s, p + l + 1, (k - 1) as nat);
    }
}

/// Every byte of a MAC address is a hexadecimal digit or a colon, and the last
/// one is a digit.
pub proof fn lemma_mac_bytes(s: Seq<u8>)
    requires
        is_mac(s),
    ensures
        s.len() > 0,
        forall|i: int| 0 <= i < s.len() ==> is_hex(#[trigger] s[i]) || s[i] == 0x3a,
        is_hex(s.last()),
{
    lemma_mac_end_bounds(s, 0, 5);
    lemma_mac_bytes_from(s, 0, 5);
}

fn hex_byte(b: u8) -> (r: bool)
    ensures
        r == is_hex(b),
{
    (0x30 <= b && b <= 0x39) || (0x41 <= b && b <= 0x46) || (0x61 <= b && b <= 0x66)
}

fn octet_at(s: &[u8], p: usize) -> (l: usize)
    ensures
        l as int == octet_len(s@, p as int),
        l > 0 ==> p + l <= s.len(),
{
    if p < s.len() && hex_byte(s[p]) {
        if p + 1 < s.len() && hex_byte(s[p + 1]) {
            2
        } else {
            1
        }
    } else {
        0
    }
}

/// The end of the MAC address that starts at `i` in `s`, if one does.
pub fn mac_end(s: &[u8], i: usize) -> (r: Option<usize>)
    ensures
        r is Some <==> mac_at(s@, i as int),
        r matches Some(j) ==> mac_end_at(s@, i as int) == Some(j as int),
{
    let mut p: usize = i;
    let mut g: usize = 0;
    while g < 5
        invariant
            g <= 5,
            p <= s@.len() || g == 0,
            mac_end_at(s@, i as int) == mac_end_from(s@, p as int, (5 - g) as nat),
        decreases 5 - g,
    {
        let l = octet_at(s, p);
        if l == 0 {
            return None;
        }
        if p + l < s.len() && s[p + l] == 0x3a {
            p = p + l + 1;
            g = g + 1;
        } else {
            return None;
        }
    }
    let l = octet_at(s, p);
    if l == 0 {
        None
    } else {
        Some(p + l)
    }
}

/// Finds the first MAC address in `s`: the position where it starts and the
/// one just past its end.
pub fn find_mac(s: &[u8]) -> (r: Option<(usize, usize)>)
    ensures
        r is None <==> first_mac_from(s@, 0) is None,
        r matches Some((a, b)) ==> first_mac_from(s@, 0) == Some(a as int) && mac_end_at(
            s@,
            a as int,
        ) == Some(b as int) && a < b <= s@.len(),
{
    let mut i: usize = 0;
    while i < s.len()
        invariant
            i <= s@.len(),
            first_mac_from(s@, 0) == first_mac_from(s@, i as int),
        decreases s@.len() - i,
    {
        match mac_end(s, i) {
            Some(j) => {
                proof {
                    lemma_mac_end_bounds(s@, i as int, 5);
                }
                return Some((i, j));
            },
            None => {
                i = i + 1;
            },
        }
    }
    None
}

} // verus!
