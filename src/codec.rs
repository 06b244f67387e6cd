//! The canonical wire encoding: little-endian integers, two-byte tags, and
//! messages written as the concatenation of their fields, each field a
//! two-byte length followed by its bytes.

use vstd::prelude::*;
use vstd::utf8::{decode_utf8, encode_utf8, valid_utf8};


verus! {

/// The two little-endian bytes of a number below 65536.
pub open spec fn le_u16(n: nat) -> Seq<u8> {
    seq![(n % 256) as u8, (n / 256 % 256) as u8]
}

/// The eight little-endian bytes of a 64-bit number.
pub open spec fn le_u64(v: u64) -> Seq<u8> {
    seq![
        v as u8,
        (v >> 8u64) as u8,
        (v >> 16u64) as u8,
        (v >> 24u64) as u8,
        (v >> 32u64) as u8,
        (v >> 40u64) as u8,
        (v >> 48u64) as u8,
        (v >> 56u64) as u8,
    ]
}

/// The 64-bit number that eight little-endian bytes hold.
pub open spec fn u64_of(b0: u8, b1: u8, b2: u8, b3: u8, b4: u8, b5: u8, b6: u8, b7: u8) -> u64 {
    (b0 as u64) | ((b1 as u64) << 8u64) | ((b2 as u64) << 16u64) | ((b3 as u64) << 24u64) | ((
    b4 as u64) << 32u64) | ((b5 as u64) << 40u64) | ((b6 as u64) << 48u64) | ((b7 as u64)
        << 56u64)
}

/// Reading back the eight bytes of a number gives the number.
pub proof fn lemma_u64_round_trip(v: u64)
    ensures
        u64_of(
            le_u64(v)[0],
            le_u64(v)[1],
            le_u64(v)[2],
            le_u64(v)[3],
            le_u64(v)[4],
            le_u64(v)[5],
            le_u64(v)[6],
            le_u64(v)[7],
        ) == v,
{
    assert(((v as u8) as u64) | ((((v >> 8u64) as u8) as u64) << 8u64) | ((((v >> 16u64) as u8) as u64)
        << 16u64) | ((((v >> 24u64) as u8) as u64) << 24u64) | ((((v >> 32u64) as u8) as u64)
        << 32u64) | ((((v >> 40u64) as u8) as u64) << 40u64) | ((((v >> 48u64) as u8) as u64)
        << 48u64) | ((((v >> 56u64) as u8) as u64) << 56u64) == v) by (bit_vector);
}

/// Appends a 64-bit number as eight little-endian bytes.
pub fn push_u64(out: &mut Vec<u8>, v: u64)
    ensures
        final(out)@ == old(out)@ + le_u64(v),
{
    out.push(v as u8);
    out.push((v >> 8) as u8);
    out.push((v >> 16) as u8);
    out.push((v >> 24) as u8);
    out.push((v >> 32) as u8);
    out.push((v >> 40) as u8);
    out.push((v >> 48) as u8);
    out.push((v >> 56) as u8);
    assert(final(out)@ =~= old(out)@ + le_u64(v));
}

/// Reads eight little-endian bytes at `pos`.
pub fn read_u64(b: &Vec<u8>, pos: usize) -> (r: u64)
    requires
        pos + 8 <= b@.len(),
    ensures
        r == u64_of(
            b@[pos as int],
            b@[pos + 1],
            b@[pos + 2],
            b@[pos + 3],
            b@[pos + 4],
            b@[pos + 5],
            b@[pos + 6],
            b@[pos + 7],
        ),
{
    let _n = b.len();
    (b[pos] as u64) | ((b[pos + 1] as u64) << 8) | ((b[pos + 2] as u64) << 16) | ((b[pos
        + 3] as u64) << 24) | ((b[pos + 4] as u64) << 32) | ((b[pos + 5] as u64) << 40) | ((b[pos
        + 6] as u64) << 48) | ((b[pos + 7] as u64) << 56)
}

/// The number that two little-endian bytes hold.
pub open spec fn u16_of(lo: u8, hi: u8) -> nat {
    (lo as nat + 256 * hi as nat) as nat
}

/// Two little-endian bytes read back as the number they were written from.
pub proof fn lemma_u16_round_trip(v: nat)
    requires
        v < 65536,
    ensures
        u16_of(le_u16(v)[0], le_u16(v)[1]) == v,
{
    let lo = v % 256;
    let hi = v / 256 % 256;
    assert(v / 256 < 256);
    assert(hi == v / 256);
    assert(lo + 256 * hi == v) by (nonlinear_arith)
        requires
            lo == v % 256,
            hi == v / 256,
    ;
}

/// One field on the wire: its length, then its bytes.
pub open spec fn field_bytes(f: Seq<u8>) -> Seq<u8> {
    le_u16(f.len()) + f
}

/// Fields on the wire, one after the other.
pub open spec fn fields_bytes(fs: Seq<Seq<u8>>) -> Seq<u8>
    decreases fs.len(),
{
    if fs.len() == 0 {
        Seq::empty()
    } else {
        field_bytes(fs[0]) + fields_bytes(fs.drop_first())
    }
}

/// Every field fits the two-byte length.
pub open spec fn fields_fit(fs: Seq<Seq<u8>>) -> bool {
    forall|i: int| 0 <= i < fs.len() ==> (#[trigger] fs[i]).len() < 65536
}

/// The first field of `s` and the number of bytes it takes.
pub open spec fn parse_field(s: Seq<u8>) -> Option<(Seq<u8>, int)> {
    if s.len() < 2 {
        None
    } else {
        let l = u16_of(s[0], s[1]) as int;
        if s.len() < 2 + l {
            None
        } else {
            Some((s.subrange(2, 2 + l), 2 + l))
        }
    }
}

/// Exactly `n` fields that take all of `s`.
pub open spec fn parse_fields(s: Seq<u8>, n: nat) -> Option<Seq<Seq<u8>>>
    decreases n,
{
    if n == 0 {
        if s.len() == 0 {
            Some(Seq::empty())
        } else {
            None
        }
    } else {
        match parse_field(s) {
            None => None,
            Some((f, k)) => match parse_fields(s.subrange(k, s.len() as int), (n - 1) as nat) {
                None => None,
                Some(rest) => Some(seq![f] + rest),
            },
        }
    }
}

/// Reading back fields that were written gives them back.
pub proof fn lemma_fields_round_trip(fs: Seq<Seq<u8>>)
    requires
        fields_fit(fs),
    ensures
        parse_fields(fields_bytes(fs), fs.len()) == Some(fs),
    decreases fs.len(),
{
    let s = fields_bytes(fs);
    if fs.len() == 0 {
    } else {
        let f = fs[0];
        let rest = fs.drop_first();
        assert(fields_fit(rest)) by {
            assert forall|i: int| 0 <= i < rest.len() implies (#[trigger] rest[i]).len() < 65536 by {
                assert(rest[i] == fs[i + 1]);
            }
        }
        lemma_fields_round_trip(rest);
        assert(f.len() < 65536);
        let l = f.len();
        assert(u16_of(s[0], s[1]) == l) by {
            assert(s[0] == (l % 256) as u8);
            assert(s[1] == (l / 256 % 256) as u8);
        }
        assert(s.subrange(2, 2 + l as int) =~= f);
        assert(s.subrange(2 + l as int, s.len() as int) =~= fields_bytes(rest));
        assert(seq![f] + rest =~= fs);
    }
}

/// A copy of bytes.
pub fn copy_bytes(b: &Vec<u8>) -> (r: Vec<u8>)
    ensures
        r@ == b@,
{
    let r = b.clone();
    assert(r@ =~= b@);
    r
}

/// Whether two byte strings of equal length are equal.
pub fn bytes_eq(a: &Vec<u8>, b: &Vec<u8>) -> (r: bool)
    requires
        a@.len() == b@.len(),
    ensures
        r == (a@ == b@),
{
    let mut i: usize = 0;
    while i < a.len()
        invariant
            a@.len() == b@.len(),
            i <= a@.len(),
            forall|j: int| 0 <= j < i ==> a@[j] == b@[j],
        decreases a.len() - i,
    {
        if a[i] != b[i] {
            return false;
        }
        i = i + 1;
    }
    assert(a@ =~= b@);
    true
}

/// The UTF-8 bytes of a string.
pub fn utf8_bytes(s: &String) -> (r: Vec<u8>)
    ensures
        r@ == encode_utf8(s@),
{
    let b = s.as_str().as_bytes();
    let mut r: Vec<u8> = Vec::new();
    let mut i: usize = 0;
    while i < b.len()
        invariant
            i <= b@.len(),
            r@ == b@.take(i as int),
        decreases b.len() - i,
    {
        r.push(b[i]);
        i = i + 1;
        assert(r@ =~= b@.take(i as int));
    }
    assert(b@.take(i as int) =~= b@);
    r
}

/// Relies on std's `String::from_utf8`: succeeds exactly on valid UTF-8,
/// with the string that the bytes encode.
#[verifier::external_body]
pub(crate) fn string_from_utf8(b: Vec<u8>) -> (r: Option<String>)
    ensures
        match r {
            Some(s) => valid_utf8(b@) && s@ == decode_utf8(b@),
            None => !valid_utf8(b@),
        },
{
    String::from_utf8(b).ok()
}

/// Appends a number as two little-endian bytes.
pub fn push_u16(out: &mut Vec<u8>, v: u16)
    ensures
        final(out)@ == old(out)@ + le_u16(v as nat),
{
    out.push((v % 256) as u8);
    out.push((v / 256) as u8);
    assert(final(out)@ =~= old(out)@ + le_u16(v as nat));
}

/// Reads two little-endian bytes at `pos`.
pub fn read_u16(b: &Vec<u8>, pos: usize) -> (r: u16)
    requires
        pos + 2 <= b@.len(),
    ensures
        r as nat == u16_of(b@[pos as int], b@[pos + 1]),
{
    let _n = b.len();
    let lo = b[pos] as u16;
    let hi = b[pos + 1] as u16;
    assert(256 * hi <= 65280) by (nonlinear_arith)
        requires
            hi <= 255,
    ;
    lo + 256 * hi
}

/// Appends one field: its length, then its bytes.
pub fn push_field(out: &mut Vec<u8>, f: &Vec<u8>)
    requires
        f@.len() < 65536,
    ensures
        final(out)@ == old(out)@ + field_bytes(f@),
{
    let ghost start = old(out)@;
    push_u16(out, f.len() as u16);
    let mut i: usize = 0;
    while i < f.len()
        invariant
            i <= f@.len(),
            f@.len() < 65536,
            out@ == start + le_u16(f@.len()) + f@.take(i as int),
        decreases f.len() - i,
    {
        out.push(f[i]);
        i = i + 1;
        assert(out@ =~= start + le_u16(f@.len()) + f@.take(i as int));
    }
    assert(f@.take(i as int) =~= f@);
}

/// Writes fields one after the other.
pub fn encode_fields(fs: &Vec<&Vec<u8>>) -> (r: Vec<u8>)
    requires
        fields_fit(fs@.map_values(|f: &Vec<u8>| f@)),
    ensures
        r@ == fields_bytes(fs@.map_values(|f: &Vec<u8>| f@)),
{
    let ghost all = fs@.map_values(|f: &Vec<u8>| f@);
    let mut out: Vec<u8> = Vec::new();
    let mut i: usize = 0;
    assert(all.subrange(0, all.len() as int) =~= all);
    assert(out@ + fields_bytes(all) =~= fields_bytes(all));
    while i < fs.len()
        invariant
            i <= fs@.len(),
            all == fs@.map_values(|f: &Vec<u8>| f@),
            fields_fit(all),
            out@ + fields_bytes(all.subrange(i as int, all.len() as int)) == fields_bytes(all),
        decreases fs.len() - i,
    {
        let ghost rest = all.subrange(i as int, all.len() as int);
        assert(rest.drop_first() =~= all.subrange(i + 1, all.len() as int));
        assert(rest[0] == all[i as int]);
        assert(all[i as int].len() < 65536);
        push_field(&mut out, fs[i]);
        i = i + 1;
        assert(out@ + fields_bytes(all.subrange(i as int, all.len() as int)) =~= fields_bytes(all));
    }
    assert(all.subrange(i as int, all.len() as int) =~= Seq::<Seq<u8>>::empty());
    assert(out@ =~= out@ + fields_bytes(all.subrange(i as int, all.len() as int)));
    out
}

/// Prepends known fields to a parse of the rest.
pub open spec fn prepend(done: Seq<Seq<u8>>, rest: Option<Seq<Seq<u8>>>) -> Option<Seq<Seq<u8>>> {
    match rest {
        None => None,
        Some(r) => Some(done + r),
    }
}

/// Copies bytes `start..end` of `b`.
pub fn copy_range(b: &Vec<u8>, start: usize, end: usize) -> (r: Vec<u8>)
    requires
        start <= end <= b@.len(),
    ensures
        r@ == b@.subrange(start as int, end as int),
{
    let mut r: Vec<u8> = Vec::new();
    let mut i: usize = start;
    while i < end
        invariant
            start <= i <= end,
            end <= b@.len(),
            r@ == b@.subrange(start as int, i as int),
        decreases end - i,
    {
        r.push(b[i]);
        i = i + 1;
        assert(r@ =~= b@.subrange(start as int, i as int));
    }
    r
}

/// Reads exactly `n` fields that take all of `b`.
pub fn decode_fields(b: &Vec<u8>, n: usize) -> (r: Option<Vec<Vec<u8>>>)
    ensures
        match r {
            Some(v) => parse_fields(b@, n as nat) == Some(v@.map_values(|f: Vec<u8>| f@))
                && v@.len() == n,
            None => parse_fields(b@, n as nat) is None,
        },
{
    let mut out: Vec<Vec<u8>> = Vec::new();
    let mut pos: usize = 0;
    let mut k: usize = 0;
    assert(b@.subrange(0, b@.len() as int) =~= b@);
    assert(Seq::<Seq<u8>>::empty() + parse_fields(b@, n as nat).unwrap_or(Seq::empty()) =~= parse_fields(b@, n as nat).unwrap_or(Seq::empty()));
    while k < n
        invariant
            k <= n,
            pos <= b@.len(),
            out@.len() == k,
            parse_fields(b@, n as nat) == prepend(
                out@.map_values(|f: Vec<u8>| f@),
                parse_fields(b@.subrange(pos as int, b@.len() as int), (n - k) as nat),
            ),
        decreases n - k,
    {
        let ghost s = b@.subrange(pos as int, b@.len() as int);
        if b.len() - pos < 2 {
            return None;
        }
        let l = read_u16(b, pos) as usize;
        if b.len() - pos - 2 < l {
            return None;
        }
        let f = copy_range(b, pos + 2, pos + 2 + l);
        proof {
            assert(s[0] == b@[pos as int] && s[1] == b@[pos + 1]);
            assert(f@ =~= s.subrange(2, 2 + l as int));
            assert(s.subrange(2 + l as int, s.len() as int) =~= b@.subrange(
                pos + 2 + l,
                b@.len() as int,
            ));
        }
        let ghost before = out@.map_values(|f: Vec<u8>| f@);
        out.push(f);
        pos = pos + 2 + l;
        k = k + 1;
        proof {
            let after = out@.map_values(|f: Vec<u8>| f@);
            assert(after =~= before + seq![f@]);
            let tail = parse_fields(b@.subrange(pos as int, b@.len() as int), (n - k) as nat);
            match tail {
                Some(t) => {
                    assert(before + (seq![f@] + t) =~= after + t);
                },
                None => {},
            }
        }
    }
    if pos != b.len() {
        return None;
    }
    proof {
        assert(b@.subrange(pos as int, b@.len() as int) =~= Seq::<u8>::empty());
        let v = out@.map_values(|f: Vec<u8>| f@);
        assert(v + Seq::<Seq<u8>>::empty() =~= v);
    }
    Some(out)
}

} // verus!
