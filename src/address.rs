use vstd::prelude::*;

use crate::numbers::{decimal, lemma_decimal_value, parse_u8, push_decimal, u8_of_text};
use crate::text::{lemma_rfind_before, lemma_rfind_skip, rfind, rfind_char};

verus! {

/// An IPv4 address and a port, as data channels are announced.
#[derive(Debug, Clone, Copy, PartialEq, Eq)]
pub struct DataAddress {
    pub ip: (u8, u8, u8, u8),
    pub port: u16,
}

/// An address as six decimal numbers joined by commas: the four octets,
/// then the high and the low byte of the port.
pub open spec fn address_text(a: DataAddress) -> Seq<char> {
    decimal(a.ip.0 as nat) + seq![','] + decimal(a.ip.1 as nat) + seq![','] + decimal(
        a.ip.2 as nat,
    ) + seq![','] + decimal(a.ip.3 as nat) + seq![','] + decimal((a.port / 256) as nat) + seq![
        ',',
    ] + decimal((a.port % 256) as nat)
}

/// Appends the address text of `a`.
pub fn push_address(s: &mut String, a: &DataAddress)
    ensures
        final(s)@ == old(s)@ + address_text(*a),
{
    proof {
        reveal_strlit(",");
    }
    push_decimal(s, a.ip.0 as u32);
    s.append(",");
    push_decimal(s, a.ip.1 as u32);
    s.append(",");
    push_decimal(s, a.ip.2 as u32);
    s.append(",");
    push_decimal(s, a.ip.3 as u32);
    s.append(",");
    push_decimal(s, (a.port / 256) as u32);
    s.append(",");
    push_decimal(s, (a.port % 256) as u32);
    assert(final(s)@ =~= old(s)@ + address_text(*a));
}

/// The pieces of `s` between commas, in order.
pub open spec fn split_commas(s: Seq<char>) -> Seq<Seq<char>>
    decreases s.len(),
{
    let j = rfind(s, ',');
    if j is Some && 0 <= j->0 < s.len() {
        split_commas(s.subrange(0, j->0)) + seq![s.subrange(j->0 + 1, s.len() as int)]
    } else {
        seq![s]
    }
}

pub open spec fn all_bytes(f: Seq<Seq<char>>) -> bool {
    forall|k: int| 0 <= k < f.len() ==> (#[trigger] u8_of_text(f[k])) is Some
}

pub open spec fn byte_at(f: Seq<Seq<char>>, k: int) -> u8 {
    u8_of_text(f[k])->0
}

/// The address that six comma-separated numbers, each from 0 to 255, denote:
/// four octets, then the port as `high * 256 + low`.
pub open spec fn address_of(s: Seq<char>) -> Option<DataAddress> {
    let f = split_commas(s);
    if f.len() == 6 && all_bytes(f) {
        Some(
            DataAddress {
                ip: (byte_at(f, 0), byte_at(f, 1), byte_at(f, 2), byte_at(f, 3)),
                port: (byte_at(f, 4) * 256 + byte_at(f, 5)) as u16,
            },
        )
    } else {
        None
    }
}

proof fn lemma_split_last(s: Seq<char>, start: int, i: int)
    requires
        0 <= start <= i <= s.len(),
        start == 0 || s[start - 1] == ',',
        forall|k: int| start <= k < i ==> s[k] != ',',
    ensures
        split_commas(s.subrange(0, i)) == (if start == 0 {
            Seq::<Seq<char>>::empty()
        } else {
            split_commas(s.subrange(0, start - 1))
        }) + seq![s.subrange(start, i)],
{
    let t = s.subrange(0, i);
    lemma_rfind_skip(t, ',', start, i);
    if start == 0 {
        assert(rfind(t, ',') is None);
        assert(t =~= s.subrange(start, i));
        assert(Seq::<Seq<char>>::empty() + seq![s.subrange(start, i)] =~= seq![t]);
    } else {
        assert(rfind(t, ',') == Some(start - 1));
        assert(t.subrange(0, start - 1) =~= s.subrange(0, start - 1));
        assert(t.subrange(start, i) =~= s.subrange(start, i));
    }
}

/// The value of each piece that reads as a byte, and 0 for one that does not.
pub open spec fn values_agree(vals: Seq<u8>, f: Seq<Seq<char>>) -> bool {
    &&& vals.len() == f.len()
    &&& forall|k: int| 0 <= k < f.len() && (#[trigger] u8_of_text(f[k])) is Some ==> vals[k]
        == byte_at(f, k)
}

proof fn lemma_values_push(vals: Seq<u8>, f: Seq<Seq<char>>, piece: Seq<char>, v: u8)
    requires
        values_agree(vals, f),
        u8_of_text(piece) is Some ==> v == u8_of_text(piece)->0,
    ensures
        values_agree(vals.push(v), f.push(piece)),
        all_bytes(f.push(piece)) == (all_bytes(f) && u8_of_text(piece) is Some),
{
    let nf = f.push(piece);
    assert forall|k: int| 0 <= k < nf.len() && (#[trigger] u8_of_text(nf[k])) is Some implies vals.push(v)[k]
        == byte_at(nf, k) by {
        if k < f.len() {
            assert(nf[k] == f[k]);
        }
    }
    if all_bytes(nf) {
        assert forall|k: int| 0 <= k < f.len() implies (#[trigger] u8_of_text(f[k])) is Some by {
            assert(nf[k] == f[k]);
        }
        assert(u8_of_text(nf[f.len() as int]) is Some);
    }
}

/// Appends the value of `piece` as a byte, or 0 where it is none; tells
/// whether it was one.
fn push_byte(vals: &mut Vec<u8>, piece: &str) -> (r: bool)
    ensures
        r == u8_of_text(piece@) is Some,
        final(vals)@ == old(vals)@.push(
            match u8_of_text(piece@) {
                Some(v) => v,
                None => 0,
            },
        ),
{
    match parse_u8(piece) {
        Some(v) => {
            vals.push(v);
            true
        },
        None => {
            vals.push(0);
            false
        },
    }
}

/// Reads six comma-separated numbers as an address.
pub fn parse_address(s: &str) -> (r: Option<DataAddress>)
    ensures
        r == address_of(s@),
{
    let n = s.unicode_len();
    let mut vals: Vec<u8> = Vec::new();
    let mut ok = true;
    let mut start: usize = 0;
    let mut i: usize = 0;
    let ghost mut done: Seq<Seq<char>> = Seq::empty();
    while i < n
        invariant
            n == s@.len(),
            start <= i <= n,
            start == 0 || s@[start - 1] == ',',
            forall|k: int| start <= k < i ==> s@[k] != ',',
            done == (if start == 0 {
                Seq::<Seq<char>>::empty()
            } else {
                split_commas(s@.subrange(0, start - 1))
            }),
            values_agree(vals@, done),
            ok == all_bytes(done),
        decreases n - i,
    {
        if s.get_char(i) == ',' {
            proof {
                lemma_split_last(s@, start as int, i as int);
            }
            let piece = s.substring_char(start, i);
            let ghost prev = vals@;
            let good = push_byte(&mut vals, piece);
            ok = ok && good;
            proof {
                lemma_values_push(prev, done, piece@, vals@.last());
                assert(vals@ =~= prev.push(vals@.last()));
                done = done.push(piece@);
            }
            start = i + 1;
        }
        i = i + 1;
    }
    proof {
        lemma_split_last(s@, start as int, n as int);
        assert(s@.subrange(0, n as int) =~= s@);
    }
    let piece = s.substring_char(start, n);
    let ghost prev = vals@;
    let good = push_byte(&mut vals, piece);
    ok = ok && good;
    let ghost f = done.push(piece@);
    proof {
        lemma_values_push(prev, done, piece@, vals@.last());
        assert(vals@ =~= prev.push(vals@.last()));
        assert(f =~= split_commas(s@));
    }
    if ok && vals.len() == 6 {
        assert(u8_of_text(f[0]) is Some);
        assert(u8_of_text(f[1]) is Some);
        assert(u8_of_text(f[2]) is Some);
        assert(u8_of_text(f[3]) is Some);
        assert(u8_of_text(f[4]) is Some);
        assert(u8_of_text(f[5]) is Some);
        let port = (vals[4] as u16) * 256 + vals[5] as u16;
        Some(DataAddress { ip: (vals[0], vals[1], vals[2], vals[3]), port })
    } else {
        None
    }
}

/// The address in the last parenthesised part of a "passive mode" reply.
pub open spec fn passive_address_of(text: Seq<char>) -> Option<DataAddress> {
    match (rfind(text, '('), rfind(text, ')')) {
        (Some(a), Some(b)) => if a < b {
            address_of(text.subrange(a + 1, b))
        } else {
            None
        },
        _ => None,
    }
}

/// Reads the address that a "passive mode" reply announces in parentheses.
pub fn passive_address(text: &str) -> (r: Option<DataAddress>)
    ensures
        r == passive_address_of(text@),
{
    proof {
        lemma_rfind_before(text@, '(', text@.len() as int);
        lemma_rfind_before(text@, ')', text@.len() as int);
    }
    match (rfind_char(text, '('), rfind_char(text, ')')) {
        (Some(a), Some(b)) => {
            if a < b {
                parse_address(text.substring_char(a + 1, b))
            } else {
                None
            }
        },
        _ => None,
    }
}

proof fn lemma_split_single(y: Seq<char>)
    requires
        forall|k: int| 0 <= k < y.len() ==> y[k] != ',',
    ensures
        split_commas(y) == seq![y],
{
    lemma_rfind_skip(y, ',', 0, y.len() as int);
}

proof fn lemma_split_snoc(x: Seq<char>, y: Seq<char>)
    requires
        forall|k: int| 0 <= k < y.len() ==> y[k] != ',',
    ensures
        split_commas(x + seq![','] + y) == split_commas(x).push(y),
{
    let s = x + seq![','] + y;
    let m = x.len() as int;
    assert forall|k: int| m + 1 <= k < s.len() implies s[k] != ',' by {
        assert(s[k] == y[k - m - 1]);
    }
    lemma_rfind_skip(s, ',', m + 1, s.len() as int);
    assert(s[m] == ',');
    assert(rfind(s, ',') == Some(m));
    assert(s.subrange(0, m) =~= x);
    assert(s.subrange(m + 1, s.len() as int) =~= y);
    assert(split_commas(x) + seq![y] =~= split_commas(x).push(y));
}

proof fn lemma_decimal_piece(v: nat)
    requires
        v <= 255,
    ensures
        forall|k: int| 0 <= k < decimal(v).len() ==> decimal(v)[k] != ',',
        u8_of_text(decimal(v)) == Some(v as u8),
{
    lemma_decimal_value(v);
    assert forall|k: int| 0 <= k < decimal(v).len() implies decimal(v)[k] != ',' by {
        assert(crate::numbers::is_digit(decimal(v)[k]));
    }
}

/// Writing an address as six numbers and reading it back gives the same
/// address and port.
pub proof fn lemma_address_round_trip(a: DataAddress)
    ensures
        address_of(address_text(a)) == Some(a),
{
    let hi = (a.port / 256) as nat;
    let lo = (a.port % 256) as nat;
    lemma_decimal_piece(a.ip.0 as nat);
    lemma_decimal_piece(a.ip.1 as nat);
    lemma_decimal_piece(a.ip.2 as nat);
    lemma_decimal_piece(a.ip.3 as nat);
    lemma_decimal_piece(hi);
    lemma_decimal_piece(lo);
    let d0 = decimal(a.ip.0 as nat);
    let d1 = decimal(a.ip.1 as nat);
    let d2 = decimal(a.ip.2 as nat);
    let d3 = decimal(a.ip.3 as nat);
    let d4 = decimal(hi);
    let d5 = decimal(lo);
    let c = seq![','];
    let p1 = d0 + c + d1;
    let p2 = p1 + c + d2;
    let p3 = p2 + c + d3;
    let p4 = p3 + c + d4;
    let p5 = p4 + c + d5;
    assert(p5 == address_text(a));
    lemma_split_single(d0);
    lemma_split_snoc(d0, d1);
    lemma_split_snoc(p1, d2);
    lemma_split_snoc(p2, d3);
    lemma_split_snoc(p3, d4);
    lemma_split_snoc(p4, d5);
    let f = split_commas(p5);
    assert(f == seq![d0].push(d1).push(d2).push(d3).push(d4).push(d5));
    assert(f.len() == 6);
    assert(f[0] == d0 && f[1] == d1 && f[2] == d2 && f[3] == d3 && f[4] == d4 && f[5] == d5);
    assert(all_bytes(f));
    assert(hi * 256 + lo == a.port);
}

} // verus!
