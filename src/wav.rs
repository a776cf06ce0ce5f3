use vstd::prelude::*;
use crate::error::AudioError;

verus! {

#[verifier::external_type_specification]
#[verifier::external_body]
pub struct ExHoundError(hound::Error);

/// Little-endian bytes of a value in `0 .. 2^16`.
pub open spec fn le_u16(x: int) -> Seq<u8> {
    seq![(x % 256) as u8, (x / 256) as u8]
}

/// Little-endian bytes of a value in `0 .. 2^32`.
pub open spec fn le_u32(x: int) -> Seq<u8> {
    seq![(x % 256) as u8, (x / 256 % 256) as u8, (x / 65536 % 256) as u8, (x / 16777216) as u8]
}

/// Two's-complement bit pattern of a 16-bit sample, as an unsigned value.
pub open spec fn i16_bits(x: i16) -> int {
    if x < 0 { x + 65536 } else { x as int }
}

/// The data chunk's payload: each sample as two little-endian bytes, in order.
pub open spec fn pcm_bytes(s: Seq<i16>) -> Seq<u8>
    decreases s.len(),
{
    if s.len() == 0 {
        Seq::empty()
    } else {
        pcm_bytes(s.drop_last()) + le_u16(i16_bits(s.last()))
    }
}

/// RIFF/WAVE header of a mono 16-bit PCM file with `n` samples at `rate` Hz.
pub open spec fn wav_header(n: nat, rate: u32) -> Seq<u8> {
    seq![82u8, 73, 70, 70] + le_u32(36 + 2 * n as int) + seq![87u8, 65, 86, 69] + seq![102u8, 109, 116, 32]
        + le_u32(16) + le_u16(1) + le_u16(1) + le_u32(rate as int) + le_u32(2 * rate as int) + le_u16(2)
        + le_u16(16) + seq![100u8, 97, 116, 97] + le_u32(2 * n as int)
}

/// The complete WAV file for `s` at `rate` Hz, mono, 16 bits per sample.
pub open spec fn wav_file(s: Seq<i16>, rate: u32) -> Seq<u8> {
    wav_header(s.len(), rate) + pcm_bytes(s)
}

/// Length in bytes of the header that precedes the samples.
pub const WAV_HEADER_LEN: usize = 44;

/// The sample stored at position `i` of a file's data chunk, read back as a
/// signed 16-bit value.
pub open spec fn decoded_sample(file: Seq<u8>, i: int) -> int {
    let v = file[44 + 2 * i] as int + 256 * file[45 + 2 * i] as int;
    if v >= 32768 { v - 65536 } else { v }
}

/// The sample count recorded in a file's data-chunk header.
pub open spec fn decoded_len(file: Seq<u8>) -> int {
    (file[40] as int + 256 * file[41] as int + 65536 * file[42] as int + 16777216 * file[43] as int) / 2
}

/// Whether hound can frame `n` samples at `rate`: the rate must be non-zero and
/// the byte rate and the RIFF size must fit the header's 32-bit fields.
pub open spec fn encodable(n: nat, rate: u32) -> bool {
    1 <= rate && 2 * rate <= u32::MAX && 36 + 2 * n <= u32::MAX
}

/// Relies on hound::WavWriter (`new`, `write_sample`, `finalize`) writing into
/// an in-memory cursor: for one channel and 16 bits it writes the 44-byte PCM
/// header, each sample as little-endian bytes, and on `finalize` fills in the
/// RIFF and data sizes. On this path it fails only when the underlying writer
/// does, which an in-memory cursor never does, so the call succeeds.
#[verifier::external_body]
fn hound_write_pcm16_mono(samples: &Vec<i16>, sample_rate: u32) -> (r: Result<Vec<u8>, hound::Error>)
    requires
        encodable(samples@.len(), sample_rate),
    ensures
        r is Ok,
        r is Ok ==> r->Ok_0@ == wav_file(samples@, sample_rate),
{
    let mut cursor = std::io::Cursor::new(Vec::new());
    let spec = hound::WavSpec {
        channels: 1,
        sample_rate,
        bits_per_sample: 16,
        sample_format: hound::SampleFormat::Int,
    };
    let mut writer = hound::WavWriter::new(&mut cursor, spec)?;
    for s in samples.iter() {
        writer.write_sample(*s)?;
    }
    writer.finalize()?;
    Ok(cursor.into_inner())
}

/// Relies on hound::Error's `Display` for a readable description.
#[verifier::external_body]
fn hound_error_text(e: &hound::Error) -> (r: String) {
    e.to_string()
}

/// Encodes mono 16-bit samples as a WAV file image at `sample_rate` Hz.
/// Fails with `WavError` exactly when the rate or length cannot be framed.
pub fn encode_wav(samples: &Vec<i16>, sample_rate: u32) -> (r: Result<Vec<u8>, AudioError>)
    ensures
        r is Ok ==> r->Ok_0@ == wav_file(samples@, sample_rate),
        r is Err ==> r->Err_0 is WavError,
        encodable(samples@.len(), sample_rate) <==> r is Ok,
{
    if sample_rate == 0 || sample_rate > u32::MAX / 2 || samples.len() > ((u32::MAX - 36) / 2) as usize {
        return Err(AudioError::WavError(String::from_str("sample rate or length does not fit a WAV header")));
    }
    match hound_write_pcm16_mono(samples, sample_rate) {
        Ok(bytes) => Ok(bytes),
        Err(e) => Err(AudioError::WavError(hound_error_text(&e))),
    }
}

proof fn lemma_pcm_bytes(s: Seq<i16>)
    ensures
        pcm_bytes(s).len() == 2 * s.len(),
        forall|i: int| 0 <= i < s.len() ==> {
            &&& #[trigger] pcm_bytes(s)[2 * i] == le_u16(i16_bits(s[i]))[0]
            &&& pcm_bytes(s)[2 * i + 1] == le_u16(i16_bits(s[i]))[1]
        },
    decreases s.len(),
{
    if s.len() > 0 {
        lemma_pcm_bytes(s.drop_last());
        assert forall|i: int| 0 <= i < s.len() implies {
            &&& #[trigger] pcm_bytes(s)[2 * i] == le_u16(i16_bits(s[i]))[0]
            &&& pcm_bytes(s)[2 * i + 1] == le_u16(i16_bits(s[i]))[1]
        } by {
            if i < s.len() - 1 {
                assert(s.drop_last()[i] == s[i]);
            }
        }
    }
}

proof fn lemma_le_u16_round_trip(x: i16)
    ensures
        ({
            let b = le_u16(i16_bits(x));
            let v = b[0] as int + 256 * b[1] as int;
            (if v >= 32768 { v - 65536 } else { v }) == x as int
        }),
{
    let u = i16_bits(x);
    assert(0 <= u < 65536);
    assert(u == u % 256 + 256 * (u / 256)) by (nonlinear_arith)
        requires 0 <= u;
    assert(0 <= u / 256 < 256) by (nonlinear_arith)
        requires 0 <= u < 65536;
}

/// Reading back the file that `encode_wav` produces gives every input sample,
/// in input order, and the sample count in the header.
pub proof fn lemma_decode_encode(s: Seq<i16>, rate: u32)
    requires
        encodable(s.len(), rate),
    ensures
        wav_file(s, rate).len() == WAV_HEADER_LEN + 2 * s.len(),
        decoded_len(wav_file(s, rate)) == s.len(),
        forall|i: int| 0 <= i < s.len() ==> #[trigger] decoded_sample(wav_file(s, rate), i) == s[i] as int,
{
    let f = wav_file(s, rate);
    let h = wav_header(s.len(), rate);
    lemma_pcm_bytes(s);
    assert(h.len() == 44);
    let n2 = 2 * s.len();
    assert(0 <= n2 < 4294967296);
    assert(n2 == n2 % 256 + 256 * (n2 / 256 % 256) + 65536 * (n2 / 65536 % 256) + 16777216 * (n2 / 16777216)) by (nonlinear_arith)
        requires 0 <= n2;
    assert(0 <= n2 / 16777216 < 256) by (nonlinear_arith)
        requires 0 <= n2 < 4294967296;
    assert(f[40] == h[40] && f[41] == h[41] && f[42] == h[42] && f[43] == h[43]);
    assert forall|i: int| 0 <= i < s.len() implies #[trigger] decoded_sample(f, i) == s[i] as int by {
        assert(f[44 + 2 * i] == pcm_bytes(s)[2 * i]);
        assert(f[45 + 2 * i] == pcm_bytes(s)[2 * i + 1]);
        lemma_le_u16_round_trip(s[i]);
    }
}

/// A recording with no samples still yields a complete header that announces
/// zero samples.
pub proof fn lemma_empty_wav(rate: u32)
    requires
        encodable(0, rate),
    ensures
        wav_file(Seq::empty(), rate).len() == WAV_HEADER_LEN,
        decoded_len(wav_file(Seq::empty(), rate)) == 0,
{
    lemma_decode_encode(Seq::empty(), rate);
}

} // verus!
