//! On-disk form of a cached table of contents: one file per fingerprint, named
//! after the fingerprint, holding a framed record that is checked on reading.
//!
//! A record is the four bytes `CFTC`, the fingerprint's length as a
//! little-endian `u64`, the fingerprint, the table's length as a little-endian
//! `u64`, then the table. Anything else read back is treated as a miss.

use vstd::bytes::{
    lemma_auto_spec_u64_to_from_le_bytes, spec_u64_from_le_bytes, spec_u64_to_le_bytes,
    u64_from_le_bytes, u64_to_le_bytes,
};
use vstd::prelude::*;

verus! {

/// Bytes that open every record.
pub open spec fn entry_magic() -> Seq<u8> {
    seq![0x43u8, 0x46u8, 0x54u8, 0x43u8]
}

/// The record stored for fingerprint `key` and table `toc`.
pub open spec fn entry_bytes(key: Seq<u8>, toc: Seq<u8>) -> Seq<u8> {
    entry_magic() + spec_u64_to_le_bytes(key.len() as u64) + key + spec_u64_to_le_bytes(
        toc.len() as u64,
    ) + toc
}

/// Lowercase hexadecimal digit for a value below 16.
pub open spec fn hex_digit(n: u8) -> u8 {
    if n < 10 {
        (48 + n) as u8
    } else {
        (87 + n) as u8
    }
}

/// Two lowercase hexadecimal digits per byte, most significant digit first.
pub open spec fn hex_of(s: Seq<u8>) -> Seq<u8>
    decreases s.len(),
{
    if s.len() == 0 {
        Seq::empty()
    } else {
        hex_of(s.drop_last()) + seq![hex_digit(s.last() / 16), hex_digit(s.last() % 16)]
    }
}

/// Extension of a record file.
pub open spec fn entry_suffix() -> Seq<u8> {
    seq![0x2eu8, 0x74u8, 0x6fu8, 0x63u8]
}

/// Extension of the file a record is written to before it is renamed into place.
pub open spec fn temp_suffix() -> Seq<u8> {
    seq![0x2eu8, 0x74u8, 0x6du8, 0x70u8]
}

/// Name of the record file of fingerprint `key`: its hexadecimal form, then `.toc`.
pub open spec fn entry_file_name_of(key: Seq<u8>) -> Seq<u8> {
    hex_of(key) + entry_suffix()
}

proof fn lemma_hex_len(s: Seq<u8>)
    ensures
        hex_of(s).len() == 2 * s.len(),
    decreases s.len(),
{
    if s.len() > 0 {
        lemma_hex_len(s.drop_last());
    }
}

proof fn lemma_hex_injective(a: Seq<u8>, b: Seq<u8>)
    requires
        hex_of(a) == hex_of(b),
    ensures
        a == b,
    decreases a.len(),
{
    lemma_hex_len(a);
    lemma_hex_len(b);
    if a.len() > 0 {
        let ha = hex_of(a);
        let pa = hex_of(a.drop_last());
        let pb = hex_of(b.drop_last());
        lemma_hex_len(a.drop_last());
        lemma_hex_len(b.drop_last());
        assert(ha.subrange(0, pa.len() as int) =~= pa);
        assert(hex_of(b).subrange(0, pb.len() as int) =~= pb);
        lemma_hex_injective(a.drop_last(), b.drop_last());
        let x = a.last();
        let y = b.last();
        assert(ha[pa.len() as int] == hex_digit(x / 16));
        assert(ha[pa.len() as int + 1] == hex_digit(x % 16));
        assert(hex_of(b)[pb.len() as int] == hex_digit(y / 16));
        assert(hex_of(b)[pb.len() as int + 1] == hex_digit(y % 16));
        assert(x / 16 == y / 16);
        assert(x % 16 == y % 16);
        assert(x == y);
        assert(a =~= a.drop_last().push(x));
        assert(b =~= b.drop_last().push(y));
    }
}

/// Distinct fingerprints get distinct record files, so each file holds the
/// record of one fingerprint only.
pub proof fn lemma_file_names_distinct(k1: Seq<u8>, k2: Seq<u8>)
    requires
        entry_file_name_of(k1) == entry_file_name_of(k2),
    ensures
        k1 == k2,
{
    lemma_hex_len(k1);
    lemma_hex_len(k2);
    let n1 = entry_file_name_of(k1);
    assert(n1.len() == hex_of(k1).len() + 4);
    assert(entry_file_name_of(k2).len() == hex_of(k2).len() + 4);
    assert(hex_of(k1).len() == hex_of(k2).len());
    assert(n1.subrange(0, hex_of(k1).len() as int) =~= hex_of(k1));
    assert(entry_file_name_of(k2).subrange(0, hex_of(k2).len() as int) =~= hex_of(k2));
    lemma_hex_injective(k1, k2);
}

fn push_all(out: &mut Vec<u8>, s: &Vec<u8>)
    ensures
        final(out)@ == old(out)@ + s@,
{
    let mut i: usize = 0;
    while i < s.len()
        invariant
            0 <= i <= s@.len(),
            out@ == old(out)@ + s@.subrange(0, i as int),
        decreases s@.len() - i,
    {
        out.push(s[i]);
        i = i + 1;
        assert(out@ =~= old(out)@ + s@.subrange(0, i as int));
    }
    assert(s@.subrange(0, s@.len() as int) =~= s@);
}

fn hex_digit_exec(n: u8) -> (r: u8)
    requires
        n < 16,
    ensures
        r == hex_digit(n),
{
    if n < 10 {
        48 + n
    } else {
        87 + n
    }
}

/// Name of the record file of fingerprint `key`, as ASCII bytes.
pub fn entry_file_name(key: &Vec<u8>) -> (r: Vec<u8>)
    ensures
        r@ == entry_file_name_of(key@),
{
    let mut r: Vec<u8> = Vec::new();
    let mut i: usize = 0;
    while i < key.len()
        invariant
            0 <= i <= key@.len(),
            r@ == hex_of(key@.subrange(0, i as int)),
        decreases key@.len() - i,
    {
        let b = key[i];
        r.push(hex_digit_exec(b / 16));
        r.push(hex_digit_exec(b % 16));
        proof {
            let s = key@.subrange(0, i + 1);
            assert(s.drop_last() =~= key@.subrange(0, i as int));
            assert(s.last() == b);
        }
        i = i + 1;
        assert(r@ =~= hex_of(key@.subrange(0, i as int)));
    }
    assert(key@.subrange(0, key@.len() as int) =~= key@);
    let suffix: Vec<u8> = vec![0x2eu8, 0x74u8, 0x6fu8, 0x63u8];
    assert(suffix@ =~= entry_suffix());
    push_all(&mut r, &suffix);
    r
}

/// Name of the file a record of `key` is first written to; renaming it to
/// `entry_file_name(key)` publishes the record whole.
pub fn entry_temp_file_name(key: &Vec<u8>) -> (r: Vec<u8>)
    ensures
        r@ == entry_file_name_of(key@) + temp_suffix(),
{
    let mut r = entry_file_name(key);
    let suffix: Vec<u8> = vec![0x2eu8, 0x74u8, 0x6du8, 0x70u8];
    assert(suffix@ =~= temp_suffix());
    push_all(&mut r, &suffix);
    r
}

/// The record to write for fingerprint `key` and table `toc`.
pub fn encode_entry(key: &Vec<u8>, toc: &Vec<u8>) -> (r: Vec<u8>)
    ensures
        r@ == entry_bytes(key@, toc@),
{
    let mut r: Vec<u8> = vec![0x43u8, 0x46u8, 0x54u8, 0x43u8];
    assert(r@ =~= entry_magic());
    let klen = u64_to_le_bytes(key.len() as u64);
    push_all(&mut r, &klen);
    push_all(&mut r, key);
    let tlen = u64_to_le_bytes(toc.len() as u64);
    push_all(&mut r, &tlen);
    push_all(&mut r, toc);
    r
}

/// Copy of `bytes[start..end]`.
fn copy_range(bytes: &Vec<u8>, start: usize, end: usize) -> (r: Vec<u8>)
    requires
        start <= end <= bytes@.len(),
    ensures
        r@ == bytes@.subrange(start as int, end as int),
{
    let mut r: Vec<u8> = Vec::new();
    let mut i: usize = start;
    while i < end
        invariant
            start <= i <= end,
            end <= bytes@.len(),
            r@ == bytes@.subrange(start as int, i as int),
        decreases end - i,
    {
        r.push(bytes[i]);
        i = i + 1;
        assert(r@ =~= bytes@.subrange(start as int, i as int));
    }
    r
}

/// Whether `bytes[start..start + s.len()]` equals `s`.
fn range_equals(bytes: &Vec<u8>, start: usize, s: &Vec<u8>) -> (r: bool)
    requires
        start as int + s@.len() <= bytes@.len(),
    ensures
        r == (bytes@.subrange(start as int, start + s@.len()) == s@),
{
    let n = bytes.len();
    let mut i: usize = 0;
    while i < s.len()
        invariant
            0 <= i <= s@.len(),
            n == bytes@.len(),
            start as int + s@.len() <= bytes@.len(),
            forall|j: int| 0 <= j < i ==> bytes@[start + j] == s@[j],
        decreases s@.len() - i,
    {
        if bytes[start + i] != s[i] {
            assert(bytes@.subrange(start as int, start + s@.len())[i as int] != s@[i as int]);
            return false;
        }
        i = i + 1;
    }
    assert(bytes@.subrange(start as int, start + s@.len()) =~= s@);
    true
}

/// Little-endian `u64` at `bytes[at..at + 8]`.
fn read_u64(bytes: &Vec<u8>, at: usize) -> (r: u64)
    requires
        at + 8 <= bytes@.len(),
    ensures
        r == spec_u64_from_le_bytes(bytes@.subrange(at as int, at + 8)),
{
    let n = bytes.len();
    let w = copy_range(bytes, at, at + 8);
    u64_from_le_bytes(w.as_slice())
}

/// Checks the framing of `bytes` as a record of `key` and extracts its table.
fn parse_entry(key: &Vec<u8>, bytes: &Vec<u8>) -> (r: Option<Vec<u8>>)
    ensures
        match r {
            Some(t) => bytes@ == entry_bytes(key@, t@),
            None => forall|t: Seq<u8>| t.len() <= u64::MAX ==> bytes@ != entry_bytes(key@, t),
        },
{
    proof {
        lemma_auto_spec_u64_to_from_le_bytes();
    }
    let n = bytes.len();
    let ghost b = bytes@;
    let ghost k = key@;
    let ghost kb = spec_u64_to_le_bytes(k.len() as u64);
    let ghost kl = k.len() as int;
    // Facts about a record of `key` with table `t`, used to refute each failure.
    assert forall|t: Seq<u8>| #[trigger] entry_bytes(k, t).len() == 20 + kl + t.len()
        && entry_bytes(k, t).subrange(0, 4) == entry_magic()
        && entry_bytes(k, t).subrange(4, 12) == kb
        && entry_bytes(k, t).subrange(12, 12 + kl) == k
        && entry_bytes(k, t).subrange(12 + kl, 20 + kl) == spec_u64_to_le_bytes(t.len() as u64)
        && entry_bytes(k, t).subrange(20 + kl, entry_bytes(k, t).len() as int) == t by {
        let e = entry_bytes(k, t);
        let tb = spec_u64_to_le_bytes(t.len() as u64);
        assert(e.subrange(0, 4) =~= entry_magic());
        assert(e.subrange(4, 12) =~= kb);
        assert(e.subrange(12, 12 + kl) =~= k);
        assert(e.subrange(12 + kl, 20 + kl) =~= tb);
        assert(e.subrange(20 + kl, e.len() as int) =~= t);
    }
    if n < 12 {
        return None;
    }
    let magic: Vec<u8> = vec![0x43u8, 0x46u8, 0x54u8, 0x43u8];
    assert(magic@ =~= entry_magic());
    if !range_equals(bytes, 0, &magic) {
        return None;
    }
    let klen = read_u64(bytes, 4);
    if klen != key.len() as u64 {
        proof {
            assert forall|t: Seq<u8>| t.len() <= u64::MAX implies b != entry_bytes(k, t) by {
                if b == entry_bytes(k, t) {
                    assert(b.subrange(4, 12) == kb);
                }
            }
        }
        return None;
    }
    if key.len() > n - 12 || n - 12 - key.len() < 8 {
        return None;
    }
    if !range_equals(bytes, 12, key) {
        return None;
    }
    let off = 12 + key.len();
    let tlen = read_u64(bytes, off);
    let body = off + 8;
    if (n - body) as u64 != tlen {
        proof {
            assert forall|t: Seq<u8>| t.len() <= u64::MAX implies b != entry_bytes(k, t) by {
                if b == entry_bytes(k, t) {
                    assert(b.subrange(off as int, off + 8) == spec_u64_to_le_bytes(t.len() as u64));
                }
            }
        }
        return None;
    }
    let t = copy_range(bytes, body, n);
    proof {
        assert(kb == b.subrange(4, 12));
        assert(spec_u64_to_le_bytes(t@.len() as u64) == b.subrange(off as int, off + 8));
        assert(b =~= entry_bytes(k, t@));
    }
    Some(t)
}

/// The table that `bytes` holds as a record of fingerprint `key`: the one table
/// `t` with `bytes == entry_bytes(key, t)`, or `None` when there is none.
pub open spec fn record_table(key: Seq<u8>, bytes: Seq<u8>) -> Option<Seq<u8>> {
    if exists|t: Seq<u8>| t.len() <= u64::MAX && bytes == entry_bytes(key, t) {
        Some(choose|t: Seq<u8>| t.len() <= u64::MAX && bytes == entry_bytes(key, t))
    } else {
        None
    }
}

/// The table held by a record read back for fingerprint `key`, or `None` when
/// the bytes are not exactly a record of `key` (truncated, altered, or written
/// for another fingerprint).
pub fn decode_entry(key: &Vec<u8>, bytes: &Vec<u8>) -> (r: Option<Vec<u8>>)
    ensures
        match r {
            Some(t) => record_table(key@, bytes@) == Some(t@),
            None => record_table(key@, bytes@) is None,
        },
{
    match parse_entry(key, bytes) {
        Some(t) => {
            let _len = t.len();
            proof {
                assert(t@.len() <= u64::MAX);
                let c = choose|c: Seq<u8>| c.len() <= u64::MAX && bytes@ == entry_bytes(key@, c);
                lemma_entry_round_trip(key@, t@, c);
            }
            Some(t)
        },
        None => None,
    }
}

/// Reading back a record decodes to the table that was written, for the same
/// fingerprint; a lookup in a later process that finds the file gets that table.
pub proof fn lemma_entry_round_trip(key: Seq<u8>, toc: Seq<u8>, t: Seq<u8>)
    requires
        toc.len() <= u64::MAX,
        entry_bytes(key, t) == entry_bytes(key, toc),
    ensures
        t == toc,
{
    lemma_auto_spec_u64_to_from_le_bytes();
    let e = entry_bytes(key, toc);
    assert(e.subrange(20 + key.len() as int, e.len() as int) =~= toc);
    assert(entry_bytes(key, t).subrange(20 + key.len() as int, e.len() as int) =~= t);
}

/// What is stored for a fingerprint reads back as exactly the table stored, in
/// this process or a later one, while a record of another fingerprint reads as
/// a miss.
pub proof fn lemma_record_reads_back(key: Seq<u8>, toc: Seq<u8>)
    requires
        key.len() <= u64::MAX,
        toc.len() <= u64::MAX,
    ensures
        record_table(key, entry_bytes(key, toc)) == Some(toc),
        forall|other: Seq<u8>| other != key && other.len() <= u64::MAX
            ==> (#[trigger] record_table(other, entry_bytes(key, toc))) is None,
{
    let c = choose|c: Seq<u8>| c.len() <= u64::MAX && entry_bytes(key, toc) == entry_bytes(key, c);
    lemma_entry_round_trip(key, toc, c);
    lemma_auto_spec_u64_to_from_le_bytes();
    assert forall|other: Seq<u8>| other != key && other.len() <= u64::MAX
        implies (#[trigger] record_table(other, entry_bytes(key, toc))) is None by {
        if exists|t: Seq<u8>| t.len() <= u64::MAX && entry_bytes(key, toc) == entry_bytes(other, t) {
            let t = choose|t: Seq<u8>| t.len() <= u64::MAX && entry_bytes(key, toc) == entry_bytes(other, t);
            let e = entry_bytes(key, toc);
            let f = entry_bytes(other, t);
            assert(e.subrange(4, 12) =~= spec_u64_to_le_bytes(key.len() as u64));
            assert(f.subrange(4, 12) =~= spec_u64_to_le_bytes(other.len() as u64));
            assert(other.len() == key.len());
            assert(e.subrange(12, 12 + key.len() as int) =~= key);
            assert(f.subrange(12, 12 + key.len() as int) =~= other);
        }
    }
}

} // verus!
