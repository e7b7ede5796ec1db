//! The WAV container in which utterances are sent to providers: a 44-byte
//! RIFF header for 16-bit mono PCM, then the samples in little-endian order.
use vstd::prelude::*;

verus! {

/// The two little-endian bytes of `x`.
pub open spec fn le16(x: u16) -> Seq<u8> {
    seq![(x & 0xff) as u8, (x >> 8) as u8]
}

/// The four little-endian bytes of `x`.
pub open spec fn le32(x: u32) -> Seq<u8> {
    seq![(x & 0xff) as u8, ((x >> 8) & 0xff) as u8, ((x >> 16) & 0xff) as u8, (x >> 24) as u8]
}

/// The little-endian bytes of the samples, two per sample.
pub open spec fn sample_bytes(audio: Seq<i16>) -> Seq<u8>
    decreases audio.len(),
{
    if audio.len() == 0 {
        Seq::empty()
    } else {
        sample_bytes(audio.drop_last()) + le16(audio.last() as u16)
    }
}

/// Byte length of the sample data, saturating at `usize::MAX`.
pub open spec fn data_len(n: nat) -> usize {
    if 2 * n > usize::MAX {
        usize::MAX
    } else {
        (2 * n) as usize
    }
}

/// `a + b`, saturating at `u32::MAX`.
pub open spec fn sat_add32(a: u32, b: u32) -> u32 {
    if a + b > u32::MAX {
        u32::MAX
    } else {
        (a + b) as u32
    }
}

/// `a * b`, saturating at `u32::MAX`.
pub open spec fn sat_mul32(a: u32, b: u32) -> u32 {
    if a * b > u32::MAX {
        u32::MAX
    } else {
        (a * b) as u32
    }
}

/// The 44-byte header of a 16-bit mono PCM WAV file.
pub open spec fn wav_header(n: nat, sample_rate_hz: u32) -> Seq<u8> {
    let dlen = data_len(n);
    seq![82u8, 73, 70, 70] + le32(sat_add32(36, dlen as u32)) + seq![87u8, 65, 86, 69] + seq![
        102u8,
        109,
        116,
        32,
    ] + le32(16) + le16(1) + le16(1) + le32(sample_rate_hz) + le32(sat_mul32(sample_rate_hz, 2))
        + le16(2) + le16(16) + seq![100u8, 97, 116, 97] + le32(dlen as u32)
}

/// The WAV file of `audio` at `sample_rate_hz`.
pub open spec fn wav_bytes(audio: Seq<i16>, sample_rate_hz: u32) -> Seq<u8> {
    wav_header(audio.len(), sample_rate_hz) + sample_bytes(audio)
}

fn push_le16(v: &mut Vec<u8>, x: u16)
    ensures
        final(v)@ == old(v)@ + le16(x),
{
    v.push((x & 0xff) as u8);
    v.push((x >> 8) as u8);
    assert(final(v)@ =~= old(v)@ + le16(x));
}

fn push_le32(v: &mut Vec<u8>, x: u32)
    ensures
        final(v)@ == old(v)@ + le32(x),
{
    v.push((x & 0xff) as u8);
    v.push(((x >> 8) & 0xff) as u8);
    v.push(((x >> 16) & 0xff) as u8);
    v.push((x >> 24) as u8);
    assert(final(v)@ =~= old(v)@ + le32(x));
}

fn push_tag(v: &mut Vec<u8>, a: u8, b: u8, c: u8, d: u8)
    ensures
        final(v)@ == old(v)@ + seq![a, b, c, d],
{
    v.push(a);
    v.push(b);
    v.push(c);
    v.push(d);
    assert(final(v)@ =~= old(v)@ + seq![a, b, c, d]);
}

/// Encode `audio` as a WAV file at `sample_rate_hz`.
pub fn wav_from_pcm16(audio: &[i16], sample_rate_hz: u32) -> (wav: Vec<u8>)
    ensures
        wav@ == wav_bytes(audio@, sample_rate_hz),
{
    let n = audio.len();
    let data_len_bytes: usize = if n > usize::MAX / 2 {
        usize::MAX
    } else {
        n * 2
    };
    let riff_size: u32 = if 36u64 + (data_len_bytes as u32) as u64 > u32::MAX as u64 {
        u32::MAX
    } else {
        36 + data_len_bytes as u32
    };
    let byte_rate: u32 = if sample_rate_hz > u32::MAX / 2 {
        u32::MAX
    } else {
        sample_rate_hz * 2
    };
    let mut wav: Vec<u8> = Vec::new();
    push_tag(&mut wav, 82, 73, 70, 70);
    push_le32(&mut wav, riff_size);
    push_tag(&mut wav, 87, 65, 86, 69);
    push_tag(&mut wav, 102, 109, 116, 32);
    push_le32(&mut wav, 16);
    push_le16(&mut wav, 1);
    push_le16(&mut wav, 1);
    push_le32(&mut wav, sample_rate_hz);
    push_le32(&mut wav, byte_rate);
    push_le16(&mut wav, 2);
    push_le16(&mut wav, 16);
    push_tag(&mut wav, 100, 97, 116, 97);
    push_le32(&mut wav, data_len_bytes as u32);
    assert(wav@ =~= wav_header(audio@.len(), sample_rate_hz));
    let ghost header = wav@;
    let mut i: usize = 0;
    assert(audio@.subrange(0, 0) =~= Seq::<i16>::empty());
    while i < n
        invariant
            i <= n,
            n == audio@.len(),
            wav@ == header + sample_bytes(audio@.subrange(0, i as int)),
        decreases n - i,
    {
        push_le16(&mut wav, audio[i] as u16);
        proof {
            assert(audio@.subrange(0, i + 1).drop_last() =~= audio@.subrange(0, i as int));
            assert(audio@.subrange(0, i + 1).last() == audio@[i as int]);
            assert(wav@ =~= header + sample_bytes(audio@.subrange(0, i + 1)));
        }
        i = i + 1;
    }
    assert(audio@.subrange(0, n as int) =~= audio@);
    wav
}

/// The sample that the two little-endian bytes `lo` and `hi` encode.
pub open spec fn decode_sample(lo: u8, hi: u8) -> i16 {
    (((hi as u16) << 8) | (lo as u16)) as i16
}

proof fn lemma_le16_roundtrip(x: i16)
    ensures
        decode_sample(le16(x as u16)[0], le16(x as u16)[1]) == x,
{
    let u = x as u16;
    assert((((((u >> 8) as u8) as u16) << 8) | (((u & 0xff) as u8) as u16)) == u) by (bit_vector);
    assert((u as i16) == x) by (bit_vector)
        requires
            u == x as u16,
    ;
}

proof fn lemma_sample_bytes(audio: Seq<i16>)
    ensures
        sample_bytes(audio).len() == 2 * audio.len(),
        forall|i: int|
            #![trigger audio[i]]
            0 <= i < audio.len() ==> sample_bytes(audio)[2 * i] == le16(audio[i] as u16)[0]
                && sample_bytes(audio)[2 * i + 1] == le16(audio[i] as u16)[1],
    decreases audio.len(),
{
    if audio.len() > 0 {
        let rest = audio.drop_last();
        lemma_sample_bytes(rest);
        assert forall|i: int| #![trigger audio[i]] 0 <= i < audio.len() implies sample_bytes(
            audio,
        )[2 * i] == le16(audio[i] as u16)[0] && sample_bytes(audio)[2 * i + 1] == le16(
            audio[i] as u16,
        )[1] by {
            if i < audio.len() - 1 {
                assert(audio[i] == rest[i]);
            }
        }
    }
}

/// Reading the WAV file back gives the samples: its length is the header
/// plus two bytes a sample, and each sample decodes from its two bytes.
pub proof fn law_wav_samples_roundtrip(audio: Seq<i16>, sample_rate_hz: u32)
    ensures
        wav_bytes(audio, sample_rate_hz).len() == 44 + 2 * audio.len(),
        forall|i: int|
            #![trigger audio[i]]
            0 <= i < audio.len() ==> decode_sample(
                wav_bytes(audio, sample_rate_hz)[44 + 2 * i],
                wav_bytes(audio, sample_rate_hz)[44 + 2 * i + 1],
            ) == audio[i],
{
    lemma_sample_bytes(audio);
    let h = wav_header(audio.len(), sample_rate_hz);
    assert(h.len() == 44);
    assert forall|i: int| #![trigger audio[i]] 0 <= i < audio.len() implies decode_sample(
        wav_bytes(audio, sample_rate_hz)[44 + 2 * i],
        wav_bytes(audio, sample_rate_hz)[44 + 2 * i + 1],
    ) == audio[i] by {
        lemma_le16_roundtrip(audio[i]);
    }
}

} // verus!
