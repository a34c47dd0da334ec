//! The canonical little-endian PCM16 mono WAV container that the local
//! transcription engine is fed: a 44-byte header ("RIFF"/size/"WAVE", a
//! "fmt " chunk with format 1, one channel, the sample rate, byte rate,
//! block align and 16 bits per sample, then a "data" chunk), followed by the
//! samples as 16-bit little-endian words.

use vstd::prelude::*;

verus! {

/// The two little-endian bytes of `x`.
pub open spec fn le16(x: u16) -> Seq<u8> {
    seq![(x % 0x100) as u8, ((x / 0x100) % 0x100) as u8]
}

/// The four little-endian bytes of `x`.
pub open spec fn le32(x: u32) -> Seq<u8> {
    seq![
        (x % 0x100) as u8,
        ((x / 0x100) % 0x100) as u8,
        ((x / 0x10000) % 0x100) as u8,
        ((x / 0x1000000) % 0x100) as u8,
    ]
}

/// A sample as its two's-complement little-endian bytes.
pub open spec fn sample_bytes(s: i16) -> Seq<u8> {
    le16(s as u16)
}

/// The PCM16 data bytes of `samples`, in order.
pub open spec fn data_bytes(samples: Seq<i16>) -> Seq<u8>
    decreases samples.len(),
{
    if samples.len() == 0 {
        Seq::empty()
    } else {
        sample_bytes(samples[0]) + data_bytes(samples.subrange(1, samples.len() as int))
    }
}

/// The 44-byte canonical header for PCM16 mono audio with `data_size` bytes
/// of samples.
pub open spec fn wav_header(sample_rate: u32, data_size: u32) -> Seq<u8> {
    seq!['R' as u8, 'I' as u8, 'F' as u8, 'F' as u8] + le32((36 + data_size) as u32) + seq![
        'W' as u8,
        'A' as u8,
        'V' as u8,
        'E' as u8,
        'f' as u8,
        'm' as u8,
        't' as u8,
        ' ' as u8,
    ] + le32(16) + le16(1) + le16(1) + le32(sample_rate) + le32((2 * sample_rate) as u32) + le16(2)
        + le16(16) + seq!['d' as u8, 'a' as u8, 't' as u8, 'a' as u8] + le32(data_size)
}

/// The complete WAV file image for `samples` at `sample_rate`.
pub open spec fn wav_file(samples: Seq<i16>, sample_rate: u32) -> Seq<u8> {
    wav_header(sample_rate, (2 * samples.len()) as u32) + data_bytes(samples)
}

fn push_le16(out: &mut Vec<u8>, x: u16)
    ensures
        final(out)@ == old(out)@ + le16(x),
{
    out.push((x % 0x100) as u8);
    out.push(((x / 0x100) % 0x100) as u8);
    proof {
        assert(final(out)@ =~= old(out)@ + le16(x));
    }
}

fn push_le32(out: &mut Vec<u8>, x: u32)
    ensures
        final(out)@ == old(out)@ + le32(x),
{
    out.push((x % 0x100) as u8);
    out.push(((x / 0x100) % 0x100) as u8);
    out.push(((x / 0x10000) % 0x100) as u8);
    out.push(((x / 0x1000000) % 0x100) as u8);
    proof {
        assert(final(out)@ =~= old(out)@ + le32(x));
    }
}

proof fn lemma_data_bytes_snoc(samples: Seq<i16>, x: i16)
    ensures
        data_bytes(samples.push(x)) == data_bytes(samples) + sample_bytes(x),
    decreases samples.len(),
{
    let p = samples.push(x);
    if samples.len() == 0 {
        assert(p.subrange(1, p.len() as int) =~= Seq::<i16>::empty());
        assert(data_bytes(p) == sample_bytes(x) + data_bytes(Seq::<i16>::empty()));
        assert(sample_bytes(x) + Seq::<u8>::empty() =~= sample_bytes(x));
        assert(Seq::<u8>::empty() + sample_bytes(x) =~= sample_bytes(x));
    } else {
        let rest = samples.subrange(1, samples.len() as int);
        lemma_data_bytes_snoc(rest, x);
        assert(p.subrange(1, p.len() as int) =~= rest.push(x));
        assert(sample_bytes(samples[0]) + (data_bytes(rest) + sample_bytes(x)) =~= (sample_bytes(
            samples[0],
        ) + data_bytes(rest)) + sample_bytes(x));
    }
}

/// The complete WAV file image for `samples` at `sample_rate`, in executable
/// code. The size limits keep the header's 32-bit size fields exact.
pub fn wav_bytes(samples: &Vec<i16>, sample_rate: u32) -> (r: Vec<u8>)
    requires
        2 * samples@.len() + 36 <= u32::MAX,
        2 * sample_rate <= u32::MAX,
    ensures
        r@ == wav_file(samples@, sample_rate),
{
    let n = samples.len();
    let data_size: u32 = (n as u32) * 2;
    let mut out: Vec<u8> = Vec::new();

    out.push('R' as u8);
    out.push('I' as u8);
    out.push('F' as u8);
    out.push('F' as u8);
    push_le32(&mut out, 36 + data_size);
    out.push('W' as u8);
    out.push('A' as u8);
    out.push('V' as u8);
    out.push('E' as u8);
    out.push('f' as u8);
    out.push('m' as u8);
    out.push('t' as u8);
    out.push(' ' as u8);
    push_le32(&mut out, 16);
    push_le16(&mut out, 1);
    push_le16(&mut out, 1);
    push_le32(&mut out, sample_rate);
    push_le32(&mut out, 2 * sample_rate);
    push_le16(&mut out, 2);
    push_le16(&mut out, 16);
    out.push('d' as u8);
    out.push('a' as u8);
    out.push('t' as u8);
    out.push('a' as u8);
    push_le32(&mut out, data_size);
    proof {
        assert(out@ =~= wav_header(sample_rate, (2 * samples@.len()) as u32));
    }

    let ghost header = out@;
    let mut i: usize = 0;
    proof {
        assert(data_bytes(samples@.subrange(0, 0)) =~= Seq::<u8>::empty());
        assert(header + Seq::<u8>::empty() =~= header);
    }
    while i < n
        invariant
            i <= n,
            n == samples@.len(),
            out@ == header + data_bytes(samples@.subrange(0, i as int)),
        decreases n - i,
    {
        proof {
            lemma_data_bytes_snoc(samples@.subrange(0, i as int), samples@[i as int]);
            assert(samples@.subrange(0, i + 1) =~= samples@.subrange(0, i as int).push(
                samples@[i as int],
            ));
        }
        push_le16(&mut out, samples[i] as u16);
        i = i + 1;
        proof {
            assert(out@ =~= header + data_bytes(samples@.subrange(0, i as int)));
        }
    }
    proof {
        assert(samples@.subrange(0, n as int) =~= samples@);
    }
    out
}

} // verus!
