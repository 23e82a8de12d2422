//! The file image of a recording: the samples in a WAVE container.
//!
//! The container is written by `hound` into memory; the host puts the bytes on
//! disk.

use vstd::prelude::*;
use crate::format::AudioFormat;

verus! {

/// Bytes of the container in front of the sample data.
pub const HEADER_LEN: usize = 44;

/// The most samples that one file can hold: the container counts its bytes
/// in 32 bits.
pub const MAX_SAMPLES: usize = 2147483629;

/// Why no file image was made.
#[derive(Clone, Copy, Debug, PartialEq, Eq, Structural)]
pub enum EncodeError {
    /// More samples than a file can hold.
    TooLong,
    /// The encoder reported a failure.
    Encoder,
}

/// The error type of `hound`. Nothing is read from it: any error counts as
/// a failure of the encoder.
#[verifier::external_type_specification]
#[verifier::external_body]
pub struct ExHoundError(hound::Error);

/// The byte of the sample data at `k`: samples lie in order, two bytes each,
/// the low byte first, negative values in two's complement.
pub open spec fn pcm_byte(samples: Seq<i16>, k: int) -> u8 {
    let s: int = samples[k / 2] as int;
    let u: int = if s < 0 { s + 65536 } else { s };
    if k % 2 == 0 {
        (u % 256) as u8
    } else {
        (u / 256) as u8
    }
}

/// The sample data of a file: every sample of `samples`, in order.
pub open spec fn pcm_bytes(samples: Seq<i16>) -> Seq<u8> {
    Seq::new(2 * samples.len(), |k: int| pcm_byte(samples, k))
}

/// A number below 65536 in two bytes, the low byte first.
pub open spec fn le16(x: nat) -> Seq<u8> {
    seq![(x % 256) as u8, (x / 256 % 256) as u8]
}

/// A number below 4294967296 in four bytes, the low byte first.
pub open spec fn le32(x: nat) -> Seq<u8> {
    seq![
        (x % 256) as u8,
        (x / 256 % 256) as u8,
        (x / 65536 % 256) as u8,
        (x / 16777216 % 256) as u8,
    ]
}

/// The header of a file of integer samples in `format` with `data_len` bytes
/// of sample data: the RIFF chunk with the length of all that follows it, the
/// format chunk of 16 bytes (integer encoding, channels, sample rate, bytes
/// per second, bytes per frame, bits per sample), and the head of the data
/// chunk with the length of the data.
pub open spec fn header(format: AudioFormat, data_len: nat) -> Seq<u8> {
    let frame: nat = (format.bits_per_sample / 8 * format.channel_count) as nat;
    seq![0x52u8, 0x49, 0x46, 0x46] + le32(data_len + 36)
        + seq![0x57u8, 0x41, 0x56, 0x45, 0x66, 0x6d, 0x74, 0x20] + le32(16) + le16(1) + le16(
        format.channel_count as nat,
    ) + le32(format.sample_rate_hz as nat) + le32((format.sample_rate_hz * frame) as nat) + le16(frame)
        + le16(format.bits_per_sample as nat) + seq![0x64u8, 0x61, 0x74, 0x61] + le32(data_len)
}

/// The file of `samples` in `format`: the header, then the sample data.
pub open spec fn image(format: AudioFormat, samples: Seq<i16>) -> Seq<u8> {
    header(format, 2 * samples.len()) + pcm_bytes(samples)
}

/// Runs `hound::WavWriter` over a buffer in memory: `new` with the format as
/// integer samples, `write_sample` for each sample in order, then `finalize`.
/// The writer borrows the buffer for as long as it lives, so the three calls
/// stand together.
///
/// Believed of it, for the standard format: it succeeds, and the buffer
/// holds the 44 bytes of `header` with the data's length filled in, and then
/// the samples, two bytes each, low byte first. It succeeds because the
/// writer fails only on a bit depth it does not know, on a sample wider than
/// the depth, on a frame left unfinished, or where its sink fails: 16 bits
/// are known, a 16-bit sample is written as it is, one channel leaves no
/// frame unfinished, and a cursor over a vector in memory takes every write
/// and seek. Left out are recordings whose byte count the writer's 32-bit
/// counters cannot hold.
#[verifier::external_body]
fn hound_encode(format: &AudioFormat, samples: &Vec<i16>) -> (r: Result<Vec<u8>, hound::Error>)
    requires
        format.is_standard(),
        samples@.len() <= MAX_SAMPLES,
    ensures
        r is Ok,
        r matches Ok(bytes) ==> bytes@ == image(*format, samples@),
{
    let spec = hound::WavSpec {
        channels: format.channel_count,
        sample_rate: format.sample_rate_hz,
        bits_per_sample: format.bits_per_sample,
        sample_format: hound::SampleFormat::Int,
    };
    let mut sink = std::io::Cursor::new(Vec::new());
    let mut writer = hound::WavWriter::new(&mut sink, spec)?;
    for sample in samples.iter() {
        writer.write_sample(*sample)?;
    }
    writer.finalize()?;
    Ok(sink.into_inner())
}

/// What `serialize` returns: the file image of a recording that fits in one
/// file, and for a longer one the error that says so.
pub open spec fn serialized(
    format: AudioFormat,
    samples: Seq<i16>,
    r: Result<Vec<u8>, EncodeError>,
) -> bool {
    if samples.len() > MAX_SAMPLES {
        r == Err::<Vec<u8>, EncodeError>(EncodeError::TooLong)
    } else {
        match r {
            Ok(bytes) => bytes@ == image(format, samples),
            Err(_) => false,
        }
    }
}

/// Settles what an encoder's outcome means for the caller: its bytes, or that
/// the encoder failed.
pub fn encoded<E>(outcome: Result<Vec<u8>, E>) -> (r: Result<Vec<u8>, EncodeError>)
    ensures
        match outcome {
            Ok(bytes) => r == Ok::<Vec<u8>, EncodeError>(bytes),
            Err(_) => r == Err::<Vec<u8>, EncodeError>(EncodeError::Encoder),
        },
{
    match outcome {
        Ok(bytes) => Ok(bytes),
        Err(_) => Err(EncodeError::Encoder),
    }
}

/// Whether one file can hold `count` samples.
pub fn fits_in_file(count: usize) -> (b: bool)
    ensures
        b == (count <= MAX_SAMPLES),
{
    count <= MAX_SAMPLES
}

/// The file image of `samples`: a header that states the format, then the
/// samples in order.
///
/// A recording too long for one file is refused before the encoder runs.
pub fn serialize(format: &AudioFormat, samples: &Vec<i16>) -> (r: Result<Vec<u8>, EncodeError>)
    requires
        format.is_standard(),
    ensures
        serialized(*format, samples@, r),
{
    if !fits_in_file(samples.len()) {
        return Err(EncodeError::TooLong);
    }
    encoded(hound_encode(format, samples))
}

/// The sample data takes two bytes for each sample.
pub proof fn lemma_pcm_bytes_len(samples: Seq<i16>)
    ensures
        pcm_bytes(samples).len() == 2 * samples.len(),
{
}

/// The header takes 44 bytes, whatever the format and the length of the data.
pub proof fn lemma_header_len(format: AudioFormat, data_len: nat)
    ensures
        header(format, data_len).len() == HEADER_LEN,
{
}

/// A file is longer than its header by two bytes for each sample, and what
/// follows the header is the sample data.
pub proof fn lemma_image_layout(format: AudioFormat, samples: Seq<i16>)
    ensures
        image(format, samples).len() == HEADER_LEN + 2 * samples.len(),
        image(format, samples).subrange(0, HEADER_LEN as int) == header(
            format,
            2 * samples.len(),
        ),
        image(format, samples).subrange(
            HEADER_LEN as int,
            image(format, samples).len() as int,
        ) == pcm_bytes(samples),
{
    lemma_header_len(format, 2 * samples.len());
    let h = header(format, 2 * samples.len());
    let img = image(format, samples);
    assert(img.subrange(0, HEADER_LEN as int) =~= h);
    assert(img.subrange(HEADER_LEN as int, img.len() as int) =~= pcm_bytes(samples));
}

/// The two length fields of a file agree with it: the first counts all bytes
/// behind itself, the second the bytes of the sample data.
pub proof fn lemma_length_fields(format: AudioFormat, samples: Seq<i16>)
    ensures
        image(format, samples).subrange(4, 8) == le32((image(format, samples).len() - 8) as nat),
        image(format, samples).subrange(40, 44) == le32(2 * samples.len()),
        image(format, samples).len() - HEADER_LEN == 2 * samples.len(),
{
    let img = image(format, samples);
    let h = header(format, 2 * samples.len());
    lemma_image_layout(format, samples);
    assert(h.len() == 44);
    assert(img.subrange(4, 8) =~= h.subrange(4, 8));
    assert(img.subrange(40, 44) =~= h.subrange(40, 44));
    assert(h.subrange(4, 8) =~= le32(2 * samples.len() + 36));
    assert(h.subrange(40, 44) =~= le32(2 * samples.len()));
}

/// The header of the standard format states one channel, 16000 samples and
/// 32000 bytes per second, two bytes per frame, and 16 bits per sample.
pub proof fn lemma_standard_header(format: AudioFormat, data_len: nat)
    requires
        format.is_standard(),
    ensures
        header(format, data_len).subrange(20, 36) == seq![
            1u8, 0, 1, 0, 0x80, 0x3e, 0, 0, 0x00, 0x7d, 0, 0, 2, 0, 16, 0,
        ],
{
    let h = header(format, data_len);
    let fields = seq![1u8, 0, 1, 0, 0x80, 0x3e, 0, 0, 0x00, 0x7d, 0, 0, 2, 0, 16, 0];
    assert(h.len() == 44);
    assert forall|i: int| 0 <= i < 16 implies h.subrange(20, 36)[i] == fields[i] by {
        assert(h.subrange(20, 36)[i] == h[20 + i]);
    }
    assert(h.subrange(20, 36) =~= fields);
}

/// The sample data keeps the order of the samples: the data of a
/// concatenation is the concatenation of the data.
pub proof fn lemma_pcm_bytes_concat(a: Seq<i16>, b: Seq<i16>)
    ensures
        pcm_bytes(a + b) == pcm_bytes(a) + pcm_bytes(b),
{
    assert forall|k: int| 0 <= k < 2 * (a.len() + b.len()) implies pcm_bytes(a + b)[k] == (
    pcm_bytes(a) + pcm_bytes(b))[k] by {
        if k < 2 * a.len() {
            assert((a + b)[k / 2] == a[k / 2]);
        } else {
            let j: int = k - 2 * a.len();
            assert(k / 2 == j / 2 + a.len());
            assert(k % 2 == j % 2);
            assert((a + b)[k / 2] == b[j / 2]);
            assert((pcm_bytes(a) + pcm_bytes(b))[k] == pcm_bytes(b)[j]);
        }
    }
    assert(pcm_bytes(a + b) =~= pcm_bytes(a) + pcm_bytes(b));
}

/// Silence is written as zero bytes.
pub proof fn lemma_pcm_bytes_of_silence(samples: Seq<i16>)
    requires
        forall|i: int| 0 <= i < samples.len() ==> samples[i] == 0,
    ensures
        forall|k: int| 0 <= k < 2 * samples.len() ==> pcm_bytes(samples)[k] == 0,
{
    assert forall|k: int| 0 <= k < 2 * samples.len() implies pcm_bytes(samples)[k] == 0 by {
        assert(0 <= k / 2 < samples.len());
    }
}

} // verus!
