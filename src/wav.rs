//! Decoding of RIFF/WAVE bytes into 16-bit integer PCM samples.
use vstd::prelude::*;

verus! {

#[verifier::external_type_specification]
#[verifier::external_body]
pub struct ExWavError(hound::Error);

/// What the header of a WAVE stream announces.
#[derive(Clone, Copy, Debug, PartialEq, Eq, Structural)]
pub struct WavHeader {
    pub channels: u16,
    pub sample_rate: u32,
    pub bits_per_sample: u16,
    pub is_float: bool,
}

/// Decoded PCM audio: interleaved samples, `channels` per instant.
#[derive(Debug)]
pub struct PcmAudio {
    pub samples: Vec<i16>,
    pub sample_rate: u32,
    pub channels: u16,
}

/// Why a byte stream could not be decoded.
#[derive(Debug)]
pub enum DecodeError {
    /// The bytes are not a WAVE stream that can be read; the text says why.
    Malformed(String),
    /// The stream is readable, but it is not 16-bit integer PCM with at least
    /// one channel.
    Unsupported(WavHeader),
    /// The header is accepted, but the sample at this position (counted over
    /// all channels) could not be read, for instance because the stream ends
    /// before it.
    UnreadableSample(usize),
}

/// Whether hound reads a WAVE header from a byte stream.
pub uninterp spec fn wav_parses(bytes: Seq<u8>) -> bool;

/// The header that hound reads from a WAVE byte stream.
pub uninterp spec fn wav_header_of(bytes: Seq<u8>) -> WavHeader;

/// What hound's sample reader yields as `i16` for a WAVE byte stream, one
/// item per sample announced by the header, interleaved in stream order:
/// the sample, or `None` where reading it failed.
pub uninterp spec fn wav_items_of(bytes: Seq<u8>) -> Seq<Option<i16>>;

/// Whether a header describes the only format the front end accepts.
pub open spec fn is_pcm16(h: WavHeader) -> bool {
    h.bits_per_sample == 16 && !h.is_float && h.channels >= 1
}

/// Whether every item was read.
pub open spec fn all_read(items: Seq<Option<i16>>) -> bool {
    forall|i: int| 0 <= i < items.len() ==> #[trigger] items[i] is Some
}

/// The samples of items that were all read.
pub open spec fn read_values(items: Seq<Option<i16>>) -> Seq<i16> {
    Seq::new(items.len(), |i: int| items[i]->Some_0)
}

/// Whether `i` is the position of the first item that could not be read.
pub open spec fn first_unread(items: Seq<Option<i16>>, i: int) -> bool {
    &&& 0 <= i < items.len()
    &&& items[i] is None
    &&& forall|k: int| 0 <= k < i ==> #[trigger] items[k] is Some
}

/// Relies on hound's `WavReader::new` (reads the RIFF/WAVE header and refuses
/// a stream of zero channels), `WavReader::spec` and
/// `WavReader::into_samples::<i16>`, whose items are handed back one for one,
/// a failed read as `None`.
#[verifier::external_body]
fn parse_wav(bytes: &[u8]) -> (r: Result<(WavHeader, Vec<Option<i16>>), hound::Error>)
    ensures
        r is Ok <==> wav_parses(bytes@),
        r matches Ok((h, items)) ==> h == wav_header_of(bytes@) && items@ == wav_items_of(bytes@)
            && h.channels >= 1,
{
    let reader = hound::WavReader::new(bytes)?;
    let spec = reader.spec();
    let is_float = match spec.sample_format {
        hound::SampleFormat::Float => true,
        hound::SampleFormat::Int => false,
    };
    let header = WavHeader {
        channels: spec.channels,
        sample_rate: spec.sample_rate,
        bits_per_sample: spec.bits_per_sample,
        is_float,
    };
    let items = reader.into_samples::<i16>().map(|s| s.ok()).collect();
    Ok((header, items))
}

/// Relies on the `Display` impl of `hound::Error` for a readable message.
#[verifier::external_body]
fn wav_error_message(e: &hound::Error) -> String {
    format!("Failed to read WAV: {}", e)
}

/// Whether a header describes 16-bit integer PCM with at least one channel.
pub fn is_pcm16_header(h: &WavHeader) -> (r: bool)
    ensures
        r == is_pcm16(*h),
{
    h.bits_per_sample == 16 && !h.is_float && h.channels >= 1
}

/// Accepts a parsed header and its samples when the header is 16-bit integer
/// PCM with at least one channel; otherwise reports the header.
pub fn check_pcm16(header: WavHeader, samples: Vec<i16>) -> (r: Result<PcmAudio, DecodeError>)
    ensures
        is_pcm16(header) <==> r is Ok,
        r matches Ok(a) ==> a.samples@ == samples@ && a.sample_rate == header.sample_rate
            && a.channels == header.channels,
        r matches Err(e) ==> e == DecodeError::Unsupported(header),
{
    if is_pcm16_header(&header) {
        Ok(PcmAudio { samples, sample_rate: header.sample_rate, channels: header.channels })
    } else {
        Err(DecodeError::Unsupported(header))
    }
}

/// The samples of `items` when every one was read; otherwise the position of
/// the first that was not.
pub fn collect_samples(items: &Vec<Option<i16>>) -> (r: Result<Vec<i16>, usize>)
    ensures
        all_read(items@) <==> r is Ok,
        r matches Ok(s) ==> s@ == read_values(items@),
        r matches Err(i) ==> first_unread(items@, i as int),
{
    let mut samples: Vec<i16> = Vec::with_capacity(items.len());
    let mut k: usize = 0;
    while k < items.len()
        invariant
            k <= items.len(),
            samples@ == read_values(items@.take(k as int)),
            forall|j: int| 0 <= j < k ==> #[trigger] items@[j] is Some,
        decreases items.len() - k,
    {
        match items[k] {
            Some(v) => {
                samples.push(v);
            },
            None => {
                return Err(k);
            },
        }
        k += 1;
        assert(samples@ =~= read_values(items@.take(k as int)));
    }
    assert(items@.take(items.len() as int) =~= items@);
    Ok(samples)
}

/// Decodes a RIFF/WAVE byte stream. Streams that are not 16-bit integer PCM
/// are refused with the header they announce, and streams with a sample that
/// cannot be read with that sample's position.
pub fn decode_wav(bytes: &[u8]) -> (r: Result<PcmAudio, DecodeError>)
    ensures
        r is Ok <==> wav_parses(bytes@) && is_pcm16(wav_header_of(bytes@))
            && all_read(wav_items_of(bytes@)),
        r matches Ok(a) ==> a.samples@ == read_values(wav_items_of(bytes@))
            && a.sample_rate == wav_header_of(bytes@).sample_rate
            && a.channels == wav_header_of(bytes@).channels,
        r matches Err(DecodeError::Malformed(_)) ==> !wav_parses(bytes@),
        r matches Err(DecodeError::Unsupported(h)) ==> wav_parses(bytes@)
            && h == wav_header_of(bytes@) && !is_pcm16(h),
        r matches Err(DecodeError::UnreadableSample(i)) ==> wav_parses(bytes@)
            && is_pcm16(wav_header_of(bytes@)) && first_unread(wav_items_of(bytes@), i as int),
{
    match parse_wav(bytes) {
        Ok((header, items)) => {
            match collect_samples(&items) {
                Ok(samples) => check_pcm16(header, samples),
                Err(i) => {
                    if is_pcm16_header(&header) {
                        Err(DecodeError::UnreadableSample(i))
                    } else {
                        Err(DecodeError::Unsupported(header))
                    }
                },
            }
        },
        Err(e) => Err(DecodeError::Malformed(wav_error_message(&e))),
    }
}

} // verus!
