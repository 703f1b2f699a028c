use vstd::prelude::*;

verus! {

/// The sample whose little-endian encoding is `lo`, `hi`.
pub open spec fn sample_from_le(lo: u8, hi: u8) -> i16 {
    let u = lo as int + 256 * hi as int;
    (if u >= 32768 { u - 65536 } else { u }) as i16
}

/// The 16-bit pattern of a sample, as an unsigned number.
pub open spec fn sample_bits(s: i16) -> int {
    if s < 0 { s as int + 65536 } else { s as int }
}

pub open spec fn low_byte(s: i16) -> u8 {
    (sample_bits(s) % 256) as u8
}

pub open spec fn high_byte(s: i16) -> u8 {
    (sample_bits(s) / 256) as u8
}

/// The samples that little-endian bytes encode, two bytes each; a trailing odd byte
/// encodes nothing.
pub open spec fn le_samples(b: Seq<u8>) -> Seq<i16> {
    Seq::new(b.len() / 2, |i: int| sample_from_le(b[2 * i], b[2 * i + 1]))
}

/// The little-endian encoding of samples, low byte first.
pub open spec fn le_bytes(s: Seq<i16>) -> Seq<u8> {
    Seq::new(2 * s.len(), |j: int| if j % 2 == 0 { low_byte(s[j / 2]) } else { high_byte(s[j / 2]) })
}

/// Decoding what was encoded gives back the samples.
pub proof fn lemma_le_round_trip(s: Seq<i16>)
    ensures
        le_samples(le_bytes(s)) == s,
{
    let b = le_bytes(s);
    assert forall|i: int| 0 <= i < s.len() implies #[trigger] le_samples(b)[i] == s[i] by {
        assert((2 * i) / 2 == i);
        assert((2 * i + 1) / 2 == i);
        assert((2 * i) % 2 == 0);
        assert((2 * i + 1) % 2 == 1);
    }
    assert(le_samples(b) =~= s);
}

/// One sample from its two bytes, low byte first.
pub fn sample_from_le_bytes(lo: u8, hi: u8) -> (r: i16)
    ensures
        r == sample_from_le(lo, hi),
{
    let u: u32 = lo as u32 + 256 * (hi as u32);
    if u >= 32768 {
        (u as i32 - 65536) as i16
    } else {
        u as i16
    }
}

/// Decodes little-endian PCM bytes, as read from a file, into samples. A trailing odd
/// byte is left out.
pub fn samples_from_le_bytes(bytes: &Vec<u8>) -> (r: Vec<i16>)
    ensures
        r@ == le_samples(bytes@),
{
    let len: usize = bytes.len();
    let n: usize = len / 2;
    let mut r: Vec<i16> = Vec::new();
    let mut i: usize = 0;
    while i < n
        invariant
            len == bytes@.len(),
            n == bytes@.len() / 2,
            i <= n,
            r@ == le_samples(bytes@).subrange(0, i as int),
        decreases n - i,
    {
        assert(2 * i + 1 < bytes@.len()) by (nonlinear_arith)
            requires
                i < n,
                n == bytes@.len() / 2,
        ;
        let s = sample_from_le_bytes(bytes[2 * i], bytes[2 * i + 1]);
        r.push(s);
        assert(le_samples(bytes@).subrange(0, i as int + 1) =~= le_samples(bytes@).subrange(
            0,
            i as int,
        ).push(s));
        i = i + 1;
    }
    assert(le_samples(bytes@).subrange(0, n as int) =~= le_samples(bytes@));
    r
}

/// Encodes samples as little-endian PCM bytes, low byte first.
pub fn samples_to_le_bytes(samples: &Vec<i16>) -> (r: Vec<u8>)
    requires
        2 * samples@.len() <= usize::MAX,
    ensures
        r@ == le_bytes(samples@),
{
    let mut r: Vec<u8> = Vec::new();
    let mut i: usize = 0;
    while i < samples.len()
        invariant
            i <= samples@.len(),
            r@ == le_bytes(samples@).subrange(0, 2 * i as int),
        decreases samples@.len() - i,
    {
        let s = samples[i];
        let u: u32 = if s < 0 {
            (s as i32 + 65536) as u32
        } else {
            s as u32
        };
        let lo = (u % 256) as u8;
        let hi = (u / 256) as u8;
        r.push(lo);
        r.push(hi);
        proof {
            let e = le_bytes(samples@);
            assert((2 * i as int) / 2 == i as int);
            assert((2 * i as int + 1) / 2 == i as int);
            assert(e.subrange(0, 2 * i as int + 2) =~= e.subrange(0, 2 * i as int).push(lo).push(hi));
        }
        i = i + 1;
    }
    assert(le_bytes(samples@).subrange(0, 2 * samples@.len() as int) =~= le_bytes(samples@));
    r
}

} // verus!
