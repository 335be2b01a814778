//! Mono 16-bit WAV files, written through `hound`.

use std::io::Cursor;
use vstd::prelude::*;

verus! {

/// The two bytes of a 16-bit integer, the low one first.
pub open spec fn le16(number: int) -> Seq<u8> {
    seq![(number % 0x100) as u8, (number / 0x100 % 0x100) as u8]
}

/// The four bytes of a 32-bit integer, the lowest first.
pub open spec fn le32(number: int) -> Seq<u8> {
    le16(number % 0x1_0000) + le16(number / 0x1_0000)
}

/// The bytes of samples, one after the other.
pub open spec fn pcm_bytes(samples: Seq<i16>) -> Seq<u8> {
    Seq::new(2 * samples.len(), |i: int| le16(samples[i / 2] as int)[i % 2])
}

/// The header of a WAV file of one channel with 16-bit samples, for a number of bytes of samples.
pub open spec fn wav_header(sample_rate: int, data_bytes: int) -> Seq<u8> {
    seq!['R' as u8, 'I' as u8, 'F' as u8, 'F' as u8]
        + le32(36 + data_bytes)
        + seq!['W' as u8, 'A' as u8, 'V' as u8, 'E' as u8]
        + seq!['f' as u8, 'm' as u8, 't' as u8, ' ' as u8]
        + le32(16)  // the size of this chunk
        + le16(1)  // uncompressed samples
        + le16(1)  // one channel
        + le32(sample_rate)
        + le32(2 * sample_rate)  // bytes in a second
        + le16(2)  // bytes in a frame
        + le16(16)  // bits in a sample
        + seq!['d' as u8, 'a' as u8, 't' as u8, 'a' as u8]
        + le32(data_bytes)
}

/// A WAV file of one channel with 16-bit samples.
pub open spec fn wav_file(sample_rate: int, samples: Seq<i16>) -> Seq<u8> {
    wav_header(sample_rate, 2 * samples.len() as int) + pcm_bytes(samples)
}

/// A WAV file under construction in a buffer: a `hound::WavWriter` whose format has been set.
#[verifier::external_body]
pub struct WavSink<'a> {
    writer: hound::WavWriter<Cursor<&'a mut Vec<u8>>>,
}

/// The samples that have been written.
pub uninterp spec fn sink_samples(sink: WavSink<'_>) -> Seq<i16>;

/// The sample rate that the file was begun with.
pub uninterp spec fn sink_rate(sink: WavSink<'_>) -> u32;

/// What the buffer holds once the file is no longer under construction.
pub uninterp spec fn sink_outcome(sink: WavSink<'_>) -> Seq<u8>;

/// The reason for which `hound` does not write a file.
#[verifier::external_type_specification]
#[verifier::external_body]
pub struct ExHoundError(hound::Error);

/// `hound::WavWriter::new`, with integer samples, on a cursor at the start of an empty buffer. It
/// writes the header and fails only where the format is not supported or the buffer refuses bytes;
/// one channel of 16 bits is supported, and a vector takes them all. The sample rate must not be
/// zero, by which the header's fields are divided, and twice the rate must fit one of the fields.
#[verifier::external_body]
fn begin_wav<'a>(
    buffer: &'a mut Vec<u8>,
    channels: u16,
    sample_rate: u32,
    bits_per_sample: u16,
) -> (result: Result<WavSink<'a>, hound::Error>)
    requires
        old(buffer)@.len() == 0,
        channels == 1,
        bits_per_sample == 16,
        0 < 2 * sample_rate <= u32::MAX,
    ensures
        result is Ok,
        sink_samples(result->Ok_0) == Seq::<i16>::empty(),
        sink_rate(result->Ok_0) == sample_rate,
        sink_outcome(result->Ok_0) == final(buffer)@,
{
    let sample_format = hound::SampleFormat::Int;
    let spec = hound::WavSpec { channels, sample_rate, bits_per_sample, sample_format };
    hound::WavWriter::new(Cursor::new(buffer), spec).map(|writer| WavSink { writer })
}

/// `hound::WavWriter::write_sample` for a 16-bit sample in a 16-bit file: it appends the sample, and
/// fails only where the buffer refuses bytes, which a vector does not. The bytes of all samples,
/// which it counts, must fit 32 bits.
#[verifier::external_body]
fn write_sample(sink: &mut WavSink<'_>, sample: i16) -> (result: Result<(), hound::Error>)
    requires
        2 * sink_samples(*old(sink)).len() + 2 <= u32::MAX,
    ensures
        result is Ok,
        sink_samples(*final(sink)) == sink_samples(*old(sink)).push(sample),
        sink_rate(*final(sink)) == sink_rate(*old(sink)),
        sink_outcome(*final(sink)) == sink_outcome(*old(sink)),
{
    sink.writer.write_sample(sample)
}

/// `hound::WavWriter::finalize` puts the sizes into the header, after which the buffer holds the
/// header and the bytes of all samples. It fails only where the buffer refuses bytes or seeking,
/// which a vector does not, or where a frame is incomplete, which with one channel none is. The size
/// of the file must fit 32 bits.
#[verifier::external_body]
fn finish_wav(sink: WavSink<'_>) -> (result: Result<(), hound::Error>)
    requires
        2 * sink_samples(sink).len() + 36 <= u32::MAX,
    ensures
        result is Ok,
        result is Ok ==> sink_outcome(sink) == wav_file(
            sink_rate(sink) as int,
            sink_samples(sink),
        ),
{
    sink.writer.finalize()
}

/// Writes samples of one channel as a WAV file.
pub fn encode_wav(samples: &[i16], sample_rate: u32) -> (result: Result<Vec<u8>, hound::Error>)
    requires
        0 < 2 * sample_rate <= u32::MAX,
        2 * samples@.len() + 44 <= u32::MAX,
    ensures
        result is Ok,
        result->Ok_0@ == wav_file(sample_rate as int, samples@),
{
    let mut bytes: Vec<u8> = Vec::with_capacity(44 + samples.len() * 2);
    let mut sink = match begin_wav(&mut bytes, 1, sample_rate, 16) {
        Ok(sink) => sink,
        Err(error) => return Err(error),
    };
    let ghost outcome = sink_outcome(sink);
    let mut i: usize = 0;
    while i < samples.len()
        invariant
            i <= samples.len(),
            2 * samples@.len() + 44 <= u32::MAX,
            sink_samples(sink) == samples@.take(i as int),
            sink_rate(sink) == sample_rate,
            sink_outcome(sink) == outcome,
        decreases samples.len() - i,
    {
        match write_sample(&mut sink, samples[i]) {
            Ok(_) => {},
            Err(error) => return Err(error),
        }
        assert(samples@.take(i as int).push(samples@[i as int]) =~= samples@.take(i + 1));
        i += 1;
    }
    assert(samples@.take(i as int) =~= samples@);
    match finish_wav(sink) {
        Ok(_) => Ok(bytes),
        Err(error) => Err(error),
    }
}

/// The 16-bit integer in two bytes.
pub open spec fn read_le16(bytes: Seq<u8>, at: int) -> int {
    bytes[at] + 0x100 * bytes[at + 1]
}

/// The 32-bit integer in four bytes.
pub open spec fn read_le32(bytes: Seq<u8>, at: int) -> int {
    read_le16(bytes, at) + 0x1_0000 * read_le16(bytes, at + 2)
}

/// The sample in two bytes.
pub open spec fn read_sample(bytes: Seq<u8>, at: int) -> int {
    let number = read_le16(bytes, at);
    if number < 0x8000 {
        number
    } else {
        number - 0x1_0000
    }
}

/// The number of bytes of a WAV file: two for each sample, after 44 of header.
pub proof fn law_wav_length(sample_rate: int, samples: Seq<i16>)
    ensures
        wav_file(sample_rate, samples).len() == 44 + 2 * samples.len(),
{
}

proof fn lemma_le16(number: int, bytes: Seq<u8>, at: int)
    requires
        0 <= at,
        at + 2 <= bytes.len(),
        bytes[at] == le16(number)[0],
        bytes[at + 1] == le16(number)[1],
    ensures
        read_le16(bytes, at) == number % 0x1_0000,
{
}

/// A 32-bit integer is read back from between any bytes.
proof fn lemma_le32_between(before: Seq<u8>, number: int, after: Seq<u8>)
    requires
        0 <= number < 0x1_0000_0000,
    ensures
        read_le32(before + le32(number) + after, before.len() as int) == number,
{
    let bytes = before + le32(number) + after;
    let at = before.len() as int;
    assert(bytes[at] == le32(number)[0]);
    assert(bytes[at + 1] == le32(number)[1]);
    assert(bytes[at + 2] == le32(number)[2]);
    assert(bytes[at + 3] == le32(number)[3]);
    lemma_le16(number % 0x1_0000, bytes, at);
    lemma_le16(number / 0x1_0000, bytes, at + 2);
}

/// The header up to the sample rate.
spec fn header_start(data_bytes: int) -> Seq<u8> {
    seq!['R' as u8, 'I' as u8, 'F' as u8, 'F' as u8]
        + le32(36 + data_bytes)
        + seq!['W' as u8, 'A' as u8, 'V' as u8, 'E' as u8]
        + seq!['f' as u8, 'm' as u8, 't' as u8, ' ' as u8]
        + le32(16)
        + le16(1)
        + le16(1)
}

/// The header after the sample rate, up to the number of bytes of samples.
spec fn header_middle(sample_rate: int) -> Seq<u8> {
    le32(2 * sample_rate)
        + le16(2)
        + le16(16)
        + seq!['d' as u8, 'a' as u8, 't' as u8, 'a' as u8]
}

proof fn lemma_header_in_pieces(sample_rate: int, data_bytes: int)
    ensures
        wav_header(sample_rate, data_bytes) == header_start(data_bytes) + le32(sample_rate)
            + header_middle(sample_rate) + le32(data_bytes),
        header_start(data_bytes).len() == 24,
        header_middle(sample_rate).len() == 12,
{
    assert(wav_header(sample_rate, data_bytes) =~= header_start(data_bytes) + le32(sample_rate)
        + header_middle(sample_rate) + le32(data_bytes));
}

proof fn lemma_file_size(sample_rate: int, samples: Seq<i16>)
    requires
        2 * samples.len() + 36 <= u32::MAX,
    ensures
        read_le32(wav_file(sample_rate, samples), 4) == 36 + 2 * samples.len(),
{
    let file = wav_file(sample_rate, samples);
    let size = 36 + 2 * samples.len() as int;
    let riff = seq!['R' as u8, 'I' as u8, 'F' as u8, 'F' as u8];
    lemma_header_in_pieces(sample_rate, 2 * samples.len() as int);
    assert(file.take(8) =~= riff + le32(size)) by {
        assert(file.take(8) =~= header_start(2 * samples.len() as int).take(8));
    }
    assert(file =~= riff + le32(size) + file.skip(8)) by {
        assert(file =~= file.take(8) + file.skip(8));
    }
    lemma_le32_between(riff, size, file.skip(8));
}

proof fn lemma_file_rate(sample_rate: int, samples: Seq<i16>)
    requires
        0 < sample_rate <= u32::MAX,
    ensures
        read_le32(wav_file(sample_rate, samples), 24) == sample_rate,
{
    let data_bytes = 2 * samples.len() as int;
    let rest = header_middle(sample_rate) + le32(data_bytes) + pcm_bytes(samples);
    lemma_header_in_pieces(sample_rate, data_bytes);
    assert(wav_file(sample_rate, samples) =~= header_start(data_bytes) + le32(sample_rate) + rest);
    lemma_le32_between(header_start(data_bytes), sample_rate, rest);
}

proof fn lemma_file_data_bytes(sample_rate: int, samples: Seq<i16>)
    requires
        2 * samples.len() <= u32::MAX,
    ensures
        read_le32(wav_file(sample_rate, samples), 40) == 2 * samples.len(),
{
    let data_bytes = 2 * samples.len() as int;
    let before = header_start(data_bytes) + le32(sample_rate) + header_middle(sample_rate);
    lemma_header_in_pieces(sample_rate, data_bytes);
    assert(wav_file(sample_rate, samples) =~= before + le32(data_bytes) + pcm_bytes(samples));
    lemma_le32_between(before, data_bytes, pcm_bytes(samples));
}

proof fn lemma_file_samples(sample_rate: int, samples: Seq<i16>, i: int)
    requires
        0 <= i < samples.len(),
    ensures
        read_sample(wav_file(sample_rate, samples), 44 + 2 * i) == samples[i],
{
    let file = wav_file(sample_rate, samples);
    law_wav_length(sample_rate, samples);
    assert(file[44 + 2 * i] == pcm_bytes(samples)[2 * i]);
    assert(file[44 + 2 * i + 1] == pcm_bytes(samples)[2 * i + 1]);
    lemma_le16(samples[i] as int, file, 44 + 2 * i);
}

/// A WAV file gives back what was written into it: the rate, every sample in its place, and sizes
/// that match the file.
pub proof fn law_wav_gives_back_what_was_written(sample_rate: int, samples: Seq<i16>)
    requires
        0 < 2 * sample_rate <= u32::MAX,
        2 * samples.len() + 36 <= u32::MAX,
    ensures
        read_le32(wav_file(sample_rate, samples), 4) == wav_file(sample_rate, samples).len() - 8,
        read_le32(wav_file(sample_rate, samples), 24) == sample_rate,
        read_le32(wav_file(sample_rate, samples), 40) == 2 * samples.len(),
        forall|i: int|
            0 <= i < samples.len() ==> #[trigger] read_sample(
                wav_file(sample_rate, samples),
                44 + 2 * i,
            ) == samples[i],
{
    law_wav_length(sample_rate, samples);
    lemma_file_size(sample_rate, samples);
    lemma_file_rate(sample_rate, samples);
    lemma_file_data_bytes(sample_rate, samples);
    assert forall|i: int| 0 <= i < samples.len() implies #[trigger] read_sample(
        wav_file(sample_rate, samples),
        44 + 2 * i,
    ) == samples[i] by {
        lemma_file_samples(sample_rate, samples, i);
    }
}

/// The pieces that a header has beside its sizes and its rate stand in a file.
#[verifier::opaque]
spec fn pieces_stand_in(
    file: Seq<u8>,
    riff: Seq<u8>,
    wave: Seq<u8>,
    fmt: Seq<u8>,
    fmt_size: Seq<u8>,
    tag: Seq<u8>,
    channels: Seq<u8>,
    byte_rate: Seq<u8>,
    frame: Seq<u8>,
    bits: Seq<u8>,
    data: Seq<u8>,
) -> bool {
    &&& file.len() >= 44
    &&& file.subrange(0, 4) == riff
    &&& file.subrange(8, 12) == wave
    &&& file.subrange(12, 16) == fmt
    &&& file.subrange(16, 20) == fmt_size
    &&& file.subrange(20, 22) == tag
    &&& file.subrange(22, 24) == channels
    &&& file.subrange(28, 32) == byte_rate
    &&& file.subrange(32, 34) == frame
    &&& file.subrange(34, 36) == bits
    &&& file.subrange(36, 40) == data
}

/// The pieces of a header stand in it one after the other.
proof fn lemma_pieces_of_a_header(
    riff: Seq<u8>,
    size: Seq<u8>,
    wave: Seq<u8>,
    fmt: Seq<u8>,
    fmt_size: Seq<u8>,
    tag: Seq<u8>,
    channels: Seq<u8>,
    rate: Seq<u8>,
    byte_rate: Seq<u8>,
    frame: Seq<u8>,
    bits: Seq<u8>,
    data: Seq<u8>,
    data_size: Seq<u8>,
    samples: Seq<u8>,
)
    requires
        riff.len() == 4 && size.len() == 4 && wave.len() == 4 && fmt.len() == 4,
        fmt_size.len() == 4 && tag.len() == 2 && channels.len() == 2 && rate.len() == 4,
        byte_rate.len() == 4 && frame.len() == 2 && bits.len() == 2 && data.len() == 4,
        data_size.len() == 4,
    ensures
        pieces_stand_in(
            riff + size + wave + fmt + fmt_size + tag + channels + rate + byte_rate + frame + bits
                + data + data_size + samples,
            riff,
            wave,
            fmt,
            fmt_size,
            tag,
            channels,
            byte_rate,
            frame,
            bits,
            data,
        ),
{
    let file = riff + size + wave + fmt + fmt_size + tag + channels + rate + byte_rate + frame
        + bits + data + data_size + samples;
    reveal(pieces_stand_in);
    assert(file.subrange(0, 4) =~= riff);
    assert(file.subrange(8, 12) =~= wave);
    assert(file.subrange(12, 16) =~= fmt);
    assert(file.subrange(16, 20) =~= fmt_size);
    assert(file.subrange(20, 22) =~= tag);
    assert(file.subrange(22, 24) =~= channels);
    assert(file.subrange(28, 32) =~= byte_rate);
    assert(file.subrange(32, 34) =~= frame);
    assert(file.subrange(34, 36) =~= bits);
    assert(file.subrange(36, 40) =~= data);
}

proof fn lemma_read_16_at(file: Seq<u8>, at: int, number: int)
    requires
        0 <= at,
        at + 2 <= file.len(),
        0 <= number < 0x1_0000,
        file.subrange(at, at + 2) == le16(number),
    ensures
        read_le16(file, at) == number,
{
    assert(file[at] == file.subrange(at, at + 2)[0]);
    assert(file[at + 1] == file.subrange(at, at + 2)[1]);
    lemma_le16(number, file, at);
}

proof fn lemma_read_32_at(file: Seq<u8>, at: int, number: int)
    requires
        0 <= at,
        at + 4 <= file.len(),
        0 <= number < 0x1_0000_0000,
        file.subrange(at, at + 4) == le32(number),
    ensures
        read_le32(file, at) == number,
{
    assert(file =~= file.take(at) + file.subrange(at, at + 4) + file.skip(at + 4));
    lemma_le32_between(file.take(at), number, file.skip(at + 4));
}

/// The pieces of a file of one channel with 16-bit samples.
spec fn has_pieces(file: Seq<u8>, sample_rate: int) -> bool {
    pieces_stand_in(
        file,
        seq!['R' as u8, 'I' as u8, 'F' as u8, 'F' as u8],
        seq!['W' as u8, 'A' as u8, 'V' as u8, 'E' as u8],
        seq!['f' as u8, 'm' as u8, 't' as u8, ' ' as u8],
        le32(16),
        le16(1),
        le16(1),
        le32(2 * sample_rate),
        le16(2),
        le16(16),
        seq!['d' as u8, 'a' as u8, 't' as u8, 'a' as u8],
    )
}

proof fn lemma_file_has_pieces(sample_rate: int, samples: Seq<i16>)
    ensures
        has_pieces(wav_file(sample_rate, samples), sample_rate),
{
    let data_bytes = 2 * samples.len() as int;
    lemma_pieces_of_a_header(
        seq!['R' as u8, 'I' as u8, 'F' as u8, 'F' as u8],
        le32(36 + data_bytes),
        seq!['W' as u8, 'A' as u8, 'V' as u8, 'E' as u8],
        seq!['f' as u8, 'm' as u8, 't' as u8, ' ' as u8],
        le32(16),
        le16(1),
        le16(1),
        le32(sample_rate),
        le32(2 * sample_rate),
        le16(2),
        le16(16),
        seq!['d' as u8, 'a' as u8, 't' as u8, 'a' as u8],
        le32(data_bytes),
        pcm_bytes(samples),
    );
}

/// Whether a file says of itself that it is a WAV file of uncompressed samples of 16 bits in one
/// channel, two bytes to a frame, and as many bytes to a second as its rate needs.
pub open spec fn says_mono_16_bit(file: Seq<u8>, sample_rate: int) -> bool {
    &&& file.subrange(0, 4) == seq!['R' as u8, 'I' as u8, 'F' as u8, 'F' as u8]
    &&& file.subrange(8, 12) == seq!['W' as u8, 'A' as u8, 'V' as u8, 'E' as u8]
    &&& file.subrange(12, 16) == seq!['f' as u8, 'm' as u8, 't' as u8, ' ' as u8]
    &&& read_le32(file, 16) == 16
    &&& read_le16(file, 20) == 1
    &&& read_le16(file, 22) == 1
    &&& read_le32(file, 28) == 2 * sample_rate
    &&& read_le16(file, 32) == 2
    &&& read_le16(file, 34) == 16
    &&& file.subrange(36, 40) == seq!['d' as u8, 'a' as u8, 't' as u8, 'a' as u8]
}

proof fn lemma_pieces_are_read(file: Seq<u8>, sample_rate: int)
    requires
        0 < 2 * sample_rate <= u32::MAX,
        has_pieces(file, sample_rate),
    ensures
        says_mono_16_bit(file, sample_rate),
{
    reveal(pieces_stand_in);
    lemma_read_32_at(file, 16, 16);
    lemma_read_16_at(file, 20, 1);
    lemma_read_16_at(file, 22, 1);
    lemma_read_32_at(file, 28, 2 * sample_rate);
    lemma_read_16_at(file, 32, 2);
    lemma_read_16_at(file, 34, 16);
}

/// A WAV file says of itself what it is: uncompressed samples of 16 bits in one channel.
pub proof fn law_wav_is_mono_and_16_bit(sample_rate: int, samples: Seq<i16>)
    requires
        0 < 2 * sample_rate <= u32::MAX,
    ensures
        says_mono_16_bit(wav_file(sample_rate, samples), sample_rate),
{
    lemma_file_has_pieces(sample_rate, samples);
    lemma_pieces_are_read(wav_file(sample_rate, samples), sample_rate);
}

} // verus!
