//! Encoding 16-bit mono PCM samples as a WAV container.
use vstd::prelude::*;

verus! {

/// Sample rate of every recording, in samples per second.
pub const SAMPLE_RATE: u32 = 16000;

/// Bytes per sample: 16-bit signed mono.
pub const BYTES_PER_SAMPLE: usize = 2;

/// Length of the canonical PCM WAV header that precedes the samples.
pub const WAV_HEADER_LEN: usize = 44;

/// Largest number of samples whose container sizes fit the header's 32-bit fields.
pub const MAX_WAV_SAMPLES: usize = 2147483000;

/// Minimum amount of sample data, in bytes, worth sending for transcription.
pub const MIN_AUDIO_BYTES: usize = 32000;

/// Little-endian encoding of a 16-bit value.
pub open spec fn le16(v: int) -> Seq<u8> {
    seq![(v % 256) as u8, ((v / 256) % 256) as u8]
}

/// Little-endian encoding of a 32-bit value.
pub open spec fn le32(v: int) -> Seq<u8> {
    seq![
        (v % 256) as u8,
        ((v / 0x100) % 256) as u8,
        ((v / 0x10000) % 256) as u8,
        ((v / 0x1000000) % 256) as u8,
    ]
}

/// The two bytes of a sample: its two's-complement bit pattern, low byte first.
pub open spec fn sample_le_bytes(s: i16) -> Seq<u8> {
    le16(if s < 0 { s as int + 0x10000 } else { s as int })
}

/// The raw sample data: every sample's bytes, in order.
pub open spec fn pcm16_bytes(samples: Seq<i16>) -> Seq<u8>
    decreases samples.len(),
{
    if samples.len() == 0 {
        Seq::empty()
    } else {
        pcm16_bytes(samples.drop_last()) + sample_le_bytes(samples.last())
    }
}

/// The 44-byte RIFF/WAVE header for `n` mono 16-bit integer samples at `rate`:
/// the "RIFF" chunk, the 16-byte "fmt " chunk (format 1 = integer PCM,
/// 1 channel, rate, byte rate, block align 2, 16 bits) and the "data" chunk header.
pub open spec fn wav_header(rate: int, n: int) -> Seq<u8> {
    seq![0x52u8, 0x49u8, 0x46u8, 0x46u8]  // "RIFF"
    + le32(36 + 2 * n)
    + seq![0x57u8, 0x41u8, 0x56u8, 0x45u8]  // "WAVE"
    + seq![0x66u8, 0x6du8, 0x74u8, 0x20u8]  // "fmt "
    + le32(16)
    + le16(1)
    + le16(1)
    + le32(rate)
    + le32(2 * rate)
    + le16(2)
    + le16(16)
    + seq![0x64u8, 0x61u8, 0x74u8, 0x61u8]  // "data"
    + le32(2 * n)
}

/// A complete WAV container holding `samples` at `rate`.
pub open spec fn wav_bytes(rate: int, samples: Seq<i16>) -> Seq<u8> {
    wav_header(rate, samples.len() as int) + pcm16_bytes(samples)
}

/// Whether a container of `len` bytes carries enough audio to transcribe.
pub open spec fn long_enough(len: int) -> bool {
    len >= WAV_HEADER_LEN + MIN_AUDIO_BYTES
}

pub proof fn lemma_pcm16_len(samples: Seq<i16>)
    ensures
        pcm16_bytes(samples).len() == 2 * samples.len(),
    decreases samples.len(),
{
    if samples.len() > 0 {
        lemma_pcm16_len(samples.drop_last());
    }
}

/// A container is its 44-byte header followed by two bytes per sample.
pub proof fn lemma_wav_len(rate: int, samples: Seq<i16>)
    ensures
        wav_bytes(rate, samples).len() == WAV_HEADER_LEN + 2 * samples.len(),
{
    lemma_pcm16_len(samples);
}

/// Relies on hound's `WavWriter` (3.5): writing 16-bit integer mono samples into
/// an in-memory cursor produces the PCMWAVEFORMAT header (chosen for at most two
/// channels and at most 16 bits), then each sample as little-endian `i16`; `finalize`
/// fills in the RIFF size (data length + 36) and the data length. Writes to a
/// `Vec`-backed cursor cannot fail; the bounds keep hound's `u32` size counters
/// from overflowing.
#[verifier::external_body]
fn hound_encode(samples: &[i16], sample_rate: u32) -> (r: Vec<u8>)
    requires
        samples@.len() <= MAX_WAV_SAMPLES,
        1 <= sample_rate <= 0x7fff_ffff,
    ensures
        r@ == wav_bytes(sample_rate as int, samples@),
{
    let spec = hound::WavSpec {
        channels: 1,
        sample_rate,
        bits_per_sample: 16,
        sample_format: hound::SampleFormat::Int,
    };
    let mut buffer = std::io::Cursor::new(Vec::new());
    let mut writer = hound::WavWriter::new(&mut buffer, spec).unwrap();
    for &s in samples {
        writer.write_sample(s).unwrap();
    }
    writer.finalize().unwrap();
    buffer.into_inner()
}

/// Encodes recorded samples as a self-contained WAV container at [`SAMPLE_RATE`].
pub fn samples_to_wav(samples: &[i16]) -> (r: Vec<u8>)
    requires
        samples@.len() <= MAX_WAV_SAMPLES,
    ensures
        r@ == wav_bytes(SAMPLE_RATE as int, samples@),
        r@.len() == WAV_HEADER_LEN + 2 * samples@.len(),
{
    proof {
        lemma_wav_len(SAMPLE_RATE as int, samples@);
    }
    hound_encode(samples, SAMPLE_RATE)
}

/// The debounce rule: a container is sent for transcription only when it
/// holds at least [`MIN_AUDIO_BYTES`] of sample data.
pub fn worth_transcribing(blob: &[u8]) -> (r: bool)
    ensures
        r == long_enough(blob@.len() as int),
{
    blob.len() >= WAV_HEADER_LEN + MIN_AUDIO_BYTES
}

/// Recordings of fewer than 16,000 samples (32,000 bytes of 16-bit sample
/// data) never pass the debounce rule, and recordings of at least that many
/// always do.
pub proof fn lemma_debounce(samples: Seq<i16>)
    ensures
        samples.len() < MIN_AUDIO_BYTES / BYTES_PER_SAMPLE
            ==> !long_enough(wav_bytes(SAMPLE_RATE as int, samples).len() as int),
        samples.len() >= MIN_AUDIO_BYTES / BYTES_PER_SAMPLE
            ==> long_enough(wav_bytes(SAMPLE_RATE as int, samples).len() as int),
{
    lemma_wav_len(SAMPLE_RATE as int, samples);
}

} // verus!
