use vstd::prelude::*;

use crate::ident::Identity;
use crate::state::{NightFury, NightFuryState, RecordModel};

verus! {

/// The 8-byte tag that prefixes every serialized record: the first bytes of
/// "nightfury".
pub open spec fn record_tag() -> Seq<u8> {
    seq![110u8, 105u8, 103u8, 104u8, 116u8, 102u8, 117u8, 114u8]
}

/// A length as four little-endian bytes.
pub open spec fn le32(n: int) -> Seq<u8> {
    seq![
        (n % 256) as u8,
        ((n / 256) % 256) as u8,
        ((n / 65536) % 256) as u8,
        ((n / 16777216) % 256) as u8,
    ]
}

/// The length four little-endian bytes carry.
pub open spec fn le32_val(b: Seq<u8>) -> int
    recommends
        b.len() == 4,
{
    (b[0] as int) + 256 * (b[1] as int) + 65536 * (b[2] as int) + 16777216 * (b[3] as int)
}

/// Reading back four little-endian bytes recovers the length they encode.
pub proof fn lemma_le32_round(n: int)
    requires
        0 <= n < 0x100000000,
    ensures
        le32(n).len() == 4,
        le32_val(le32(n)) == n,
{
    let u = n as u32;
    assert(u % 256 < 256 && (u / 256) % 256 < 256 && (u / 65536) % 256 < 256 && (u / 16777216)
        % 256 < 256 && (u % 256) + 256 * ((u / 256) % 256) + 65536 * ((u / 65536) % 256) + 16777216
        * ((u / 16777216) % 256) == u) by (bit_vector);
}

/// The byte a phase serializes to.
pub open spec fn state_byte(s: NightFuryState) -> u8 {
    match s {
        NightFuryState::Day => 0u8,
        NightFuryState::Night => 1u8,
    }
}

/// The serialized form of a record: the fixed tag, the three identities, the
/// two length-prefixed URIs, the phase byte, the length-prefixed trigger tag,
/// and the bump.
pub open spec fn encoded_record(m: RecordModel) -> Seq<u8> {
    record_tag() + m.authority + m.mint + le32(m.day_uri.len() as int) + m.day_uri + le32(
        m.night_uri.len() as int,
    ) + m.night_uri + seq![state_byte(m.state)] + m.thread + le32(m.thread_id.len() as int)
        + m.thread_id + seq![m.bump]
}

/// The record that bytes deserialize to, or nothing when they are not the
/// serialized form of a well-formed record. The length prefixes are checked
/// against the URI bound and the total length, so exactly the encodings of
/// well-formed records are accepted.
pub open spec fn decoded_record(bytes: Seq<u8>) -> Option<RecordModel> {
    if bytes.len() < 76 {
        None
    } else if bytes.subrange(0, 8) != record_tag() {
        None
    } else {
        let dl = le32_val(bytes.subrange(72, 76));
        if dl > 256 || bytes.len() < 80 + dl {
            None
        } else {
            let nl = le32_val(bytes.subrange(76 + dl, 80 + dl));
            if nl > 256 || bytes.len() < 117 + dl + nl {
                None
            } else {
                let sb = bytes[80 + dl + nl];
                let tl = le32_val(bytes.subrange(113 + dl + nl, 117 + dl + nl));
                if !(sb == 0 || sb == 1) {
                    None
                } else if bytes.len() != 118 + dl + nl + tl {
                    None
                } else {
                    Some(
                        RecordModel {
                            authority: bytes.subrange(8, 40),
                            mint: bytes.subrange(40, 72),
                            day_uri: bytes.subrange(76, 76 + dl),
                            night_uri: bytes.subrange(80 + dl, 80 + dl + nl),
                            state: if sb == 0 {
                                NightFuryState::Day
                            } else {
                                NightFuryState::Night
                            },
                            thread: bytes.subrange(81 + dl + nl, 113 + dl + nl),
                            thread_id: bytes.subrange(117 + dl + nl, 117 + dl + nl + tl),
                            bump: bytes[117 + dl + nl + tl],
                        },
                    )
                }
            }
        }
    }
}

/// Four little-endian bytes are recovered from the length they carry.
pub proof fn lemma_le32_inverse(b: Seq<u8>)
    requires
        b.len() == 4,
    ensures
        0 <= le32_val(b) < 0x100000000,
        le32(le32_val(b)) == b,
{
    let x0 = b[0];
    let x1 = b[1];
    let x2 = b[2];
    let x3 = b[3];
    let n: u32 = ((x0 as u32) + 256 * (x1 as u32) + 65536 * (x2 as u32) + 16777216 * (x3 as u32))
        as u32;
    assert(n == (x0 as u32) + 256 * (x1 as u32) + 65536 * (x2 as u32) + 16777216 * (x3 as u32)
        ==> n % 256 == x0 as u32 && (n / 256) % 256 == x1 as u32 && (n / 65536) % 256 == x2 as u32
        && (n / 16777216) % 256 == x3 as u32) by (bit_vector);
    assert(le32(le32_val(b)) =~= b);
}

/// Law: decoding is a left inverse of encoding — every well-formed record
/// survives a serialization round trip unchanged.
#[verifier::rlimit(100)]
#[verifier::spinoff_prover]
pub proof fn lemma_codec_round_trip(m: RecordModel)
    requires
        m.wf(),
    ensures
        decoded_record(encoded_record(m)) == Some(m),
{
    let b = encoded_record(m);
    let dl = m.day_uri.len() as int;
    let nl = m.night_uri.len() as int;
    let tl = m.thread_id.len() as int;
    lemma_le32_round(dl);
    lemma_le32_round(nl);
    lemma_le32_round(tl);
    assert(b.len() == 118 + dl + nl + tl);
    assert(b.subrange(0, 8) =~= record_tag());
    assert(b.subrange(8, 40) =~= m.authority);
    assert(b.subrange(40, 72) =~= m.mint);
    assert(b.subrange(72, 76) =~= le32(dl));
    assert(b.subrange(76, 76 + dl) =~= m.day_uri);
    assert(b.subrange(76 + dl, 80 + dl) =~= le32(nl));
    assert(b.subrange(80 + dl, 80 + dl + nl) =~= m.night_uri);
    assert(b[80 + dl + nl] == state_byte(m.state));
    assert(b.subrange(81 + dl + nl, 113 + dl + nl) =~= m.thread);
    assert(b.subrange(113 + dl + nl, 117 + dl + nl) =~= le32(tl));
    assert(b.subrange(117 + dl + nl, 117 + dl + nl + tl) =~= m.thread_id);
    assert(b[117 + dl + nl + tl] == m.bump);
}

/// Law: decoding is canonical — bytes that decode at all are exactly the
/// encoding of the well-formed record they decode to, so no two distinct byte
/// strings decode to the same record.
#[verifier::rlimit(100)]
#[verifier::spinoff_prover]
pub proof fn lemma_codec_canonical(bytes: Seq<u8>)
    requires
        decoded_record(bytes) is Some,
    ensures
        decoded_record(bytes) matches Some(m) ==> m.wf() && encoded_record(m) == bytes,
{
    match decoded_record(bytes) {
        Option::Some(m) => {
            let dl = le32_val(bytes.subrange(72, 76));
            let nl = le32_val(bytes.subrange(76 + dl, 80 + dl));
            let tl = le32_val(bytes.subrange(113 + dl + nl, 117 + dl + nl));
            lemma_le32_inverse(bytes.subrange(72, 76));
            lemma_le32_inverse(bytes.subrange(76 + dl, 80 + dl));
            lemma_le32_inverse(bytes.subrange(113 + dl + nl, 117 + dl + nl));
            assert(m.day_uri.len() == dl);
            assert(m.night_uri.len() == nl);
            assert(m.thread_id.len() == tl);
            assert(m.wf());
            assert(encoded_record(m) =~= bytes);
        },
        Option::None => {},
    }
}

fn push_all(out: &mut Vec<u8>, src: &Vec<u8>)
    ensures
        final(out)@ == old(out)@ + src@,
{
    let mut i: usize = 0;
    while i < src.len()
        invariant
            i <= src@.len(),
            out@ == old(out)@ + src@.subrange(0, i as int),
        decreases src@.len() - i,
    {
        out.push(src[i]);
        proof {
            assert(out@ =~= old(out)@ + src@.subrange(0, i + 1));
        }
        i += 1;
    }
    proof {
        assert(old(out)@ + src@.subrange(0, src@.len() as int) =~= old(out)@ + src@);
    }
}

fn push_identity(out: &mut Vec<u8>, id: &Identity)
    ensures
        final(out)@ == old(out)@ + id@,
{
    let mut i: usize = 0;
    while i < 32
        invariant
            i <= 32,
            out@ == old(out)@ + id@.subrange(0, i as int),
        decreases 32 - i,
    {
        out.push(id.bytes[i]);
        proof {
            assert(out@ =~= old(out)@ + id@.subrange(0, i + 1));
        }
        i += 1;
    }
    proof {
        assert(old(out)@ + id@.subrange(0, 32) =~= old(out)@ + id@);
    }
}

fn push_le32(out: &mut Vec<u8>, n: u32)
    ensures
        final(out)@ == old(out)@ + le32(n as int),
{
    out.push((n % 256) as u8);
    out.push(((n / 256) % 256) as u8);
    out.push(((n / 65536) % 256) as u8);
    out.push(((n / 16777216) % 256) as u8);
    proof {
        assert(out@ =~= old(out)@ + le32(n as int));
    }
}

/// Serialize a record into the persisted layout.
pub fn encode_record(r: &NightFury) -> (out: Vec<u8>)
    requires
        r.wf(),
    ensures
        out@ == encoded_record(r@),
{
    let mut out: Vec<u8> = Vec::new();
    out.push(110);
    out.push(105);
    out.push(103);
    out.push(104);
    out.push(116);
    out.push(102);
    out.push(117);
    out.push(114);
    proof {
        assert(out@ =~= record_tag());
    }
    push_identity(&mut out, &r.authority);
    push_identity(&mut out, &r.mint);
    push_le32(&mut out, r.day_uri.len() as u32);
    push_all(&mut out, &r.day_uri);
    push_le32(&mut out, r.night_uri.len() as u32);
    push_all(&mut out, &r.night_uri);
    let sb: u8 = match r.state {
        NightFuryState::Day => 0,
        NightFuryState::Night => 1,
    };
    out.push(sb);
    push_identity(&mut out, &r.thread);
    push_le32(&mut out, r.thread_id.len() as u32);
    push_all(&mut out, &r.thread_id);
    out.push(r.bump);
    proof {
        assert(out@ =~= encoded_record(r@));
    }
    out
}

fn read_bytes(bytes: &Vec<u8>, off: usize, len: usize) -> (r: Vec<u8>)
    requires
        off + len <= bytes@.len(),
        bytes@.len() <= usize::MAX,
    ensures
        r@ == bytes@.subrange(off as int, off as int + len as int),
{
    let mut r: Vec<u8> = Vec::new();
    let mut i: usize = 0;
    while i < len
        invariant
            i <= len,
            off + len <= bytes@.len(),
            bytes@.len() <= usize::MAX,
            r@ == bytes@.subrange(off as int, off as int + i as int),
        decreases len - i,
    {
        r.push(bytes[off + i]);
        proof {
            assert(r@ =~= bytes@.subrange(off as int, off as int + i as int + 1));
        }
        i += 1;
    }
    r
}

fn read_identity(bytes: &Vec<u8>, off: usize) -> (r: Identity)
    requires
        off + 32 <= bytes@.len(),
        bytes@.len() <= usize::MAX,
    ensures
        r@ == bytes@.subrange(off as int, off as int + 32),
{
    let mut arr: [u8; 32] = [0u8; 32];
    let mut i: usize = 0;
    while i < 32
        invariant
            i <= 32,
            off + 32 <= bytes@.len(),
            bytes@.len() <= usize::MAX,
            forall|j: int| 0 <= j < i ==> arr@[j] == bytes@[off + j],
        decreases 32 - i,
    {
        arr[i] = bytes[off + i];
        i += 1;
    }
    proof {
        assert(arr@ =~= bytes@.subrange(off as int, off as int + 32));
    }
    Identity { bytes: arr }
}

fn read_le32(bytes: &Vec<u8>, off: usize) -> (n: u32)
    requires
        off + 4 <= bytes@.len(),
        bytes@.len() <= usize::MAX,
    ensures
        n as int == le32_val(bytes@.subrange(off as int, off as int + 4)),
{
    let n: u32 = bytes[off] as u32 + 256 * (bytes[off + 1] as u32) + 65536 * (bytes[off + 2]
        as u32) + 16777216 * (bytes[off + 3] as u32);
    n
}

fn tag_matches(bytes: &Vec<u8>) -> (r: bool)
    requires
        bytes@.len() >= 8,
    ensures
        r == (bytes@.subrange(0, 8) == record_tag()),
{
    let ok = bytes[0] == 110 && bytes[1] == 105 && bytes[2] == 103 && bytes[3] == 104 && bytes[4]
        == 116 && bytes[5] == 102 && bytes[6] == 117 && bytes[7] == 114;
    proof {
        if ok {
            assert(bytes@.subrange(0, 8) =~= record_tag());
        } else {
            assert(bytes@.subrange(0, 8) != record_tag());
        }
    }
    ok
}

/// Deserialize a record from the persisted layout; None when the bytes are
/// not the encoding of a well-formed record.
pub fn decode_record(bytes: &Vec<u8>) -> (r: Option<NightFury>)
    ensures
        (match r {
            Some(rec) => Some(rec@),
            None => None,
        }) == decoded_record(bytes@),
        r matches Some(rec) ==> rec.wf(),
{
    let len = bytes.len();
    if len < 76 {
        return None;
    }
    if !tag_matches(bytes) {
        return None;
    }
    let dl32 = read_le32(bytes, 72);
    if dl32 > 256 {
        return None;
    }
    let dl = dl32 as usize;
    if (len as u64) < 80 + dl as u64 {
        return None;
    }
    let nl32 = read_le32(bytes, 76 + dl);
    if nl32 > 256 {
        return None;
    }
    let nl = nl32 as usize;
    if (len as u64) < 117 + dl as u64 + nl as u64 {
        return None;
    }
    let sb = bytes[80 + dl + nl];
    let tl32 = read_le32(bytes, 113 + dl + nl);
    if !(sb == 0 || sb == 1) {
        return None;
    }
    if (len as u64) != 118 + dl as u64 + nl as u64 + tl32 as u64 {
        return None;
    }
    let tl = tl32 as usize;
    let rec = NightFury {
        authority: read_identity(bytes, 8),
        mint: read_identity(bytes, 40),
        day_uri: read_bytes(bytes, 76, dl),
        night_uri: read_bytes(bytes, 80 + dl, nl),
        state: if sb == 0 {
            NightFuryState::Day
        } else {
            NightFuryState::Night
        },
        thread: read_identity(bytes, 81 + dl + nl),
        thread_id: read_bytes(bytes, 117 + dl + nl, tl),
        bump: bytes[117 + dl + nl + tl],
    };
    Some(rec)
}

} // verus!
