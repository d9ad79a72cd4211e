//! The description of a stream of linear PCM samples.

use vstd::prelude::*;
use crate::error::{AudioUnitError, CAError};
use crate::format::{lemma_sample_format_is_determined, LinearPcmFlags, SampleFormat, LINEAR_PCM};

verus! {

/// The record in which the host describes a stream. The sample rate is held
/// as the bit pattern of the IEEE 754 double that the host stores.
#[derive(Copy, Clone, Debug, PartialEq, Eq, Structural)]
pub struct StreamDescription {
    pub sample_rate: u64,
    pub format_id: u32,
    pub format_flags: u32,
    pub bytes_per_packet: u32,
    pub frames_per_packet: u32,
    pub bytes_per_frame: u32,
    pub channels_per_frame: u32,
    pub bits_per_channel: u32,
    pub reserved: u32,
}

impl StreamDescription {
    /// The flags that the record holds; bits that are no flag are dropped.
    pub open spec fn flags(self) -> LinearPcmFlags {
        LinearPcmFlags::spec_from_bits_truncate(self.format_flags)
    }

    /// The sample format that the record's flags and width describe.
    pub open spec fn sample_format(self) -> Option<SampleFormat> {
        if exists|f: SampleFormat| self.describes(f) {
            Some(choose|f: SampleFormat| self.describes(f))
        } else {
            None
        }
    }

    /// Whether the record's flags and width are those of `format`.
    pub open spec fn describes(self, format: SampleFormat) -> bool {
        format.matches(self.flags()) && 8 * format.spec_size_in_bytes() == self.bits_per_channel
    }

    /// Whether the record is linear PCM.
    pub open spec fn is_linear_pcm(self) -> bool {
        self.format_id == LINEAR_PCM
    }

    /// Whether this crate can work with the stream: it is linear PCM, and its
    /// element is one of the sample formats.
    pub open spec fn is_supported(self) -> bool {
        self.is_linear_pcm() && self.sample_format() is Some
    }

    /// The record of a linear PCM stream of `channels` channels of
    /// `sample_format` at `sample_rate`. The samples are always packed. One
    /// packet holds one frame; a frame holds one sample where each channel has
    /// a buffer of its own, else one sample of each channel.
    pub open spec fn linear_pcm(
        sample_rate: u64,
        sample_format: SampleFormat,
        flags: LinearPcmFlags,
        channels: usize,
    ) -> StreamDescription {
        let bytes_per_frame = if flags.has(LinearPcmFlags::IS_NON_INTERLEAVED) {
            sample_format.spec_size_in_bytes() as int
        } else {
            sample_format.spec_size_in_bytes() * channels
        };
        StreamDescription {
            sample_rate,
            format_id: LINEAR_PCM,
            format_flags: flags.spec_bits() | LinearPcmFlags::IS_PACKED,
            bytes_per_packet: bytes_per_frame as u32,
            frames_per_packet: 1,
            bytes_per_frame: bytes_per_frame as u32,
            channels_per_frame: channels as u32,
            bits_per_channel: (8 * sample_format.spec_size_in_bytes()) as u32,
            reserved: 0,
        }
    }
}

/// A stream format: a record that is linear PCM.
#[derive(Copy, Clone, Debug, PartialEq, Eq)]
pub struct StreamFormat {
    asbd: StreamDescription,
}

impl StreamFormat {
    /// The record behind this format.
    pub closed spec fn spec_description(&self) -> StreamDescription {
        self.asbd
    }

    /// What holds of every stream format: it is linear PCM.
    pub open spec fn wf(&self) -> bool {
        self.spec_description().is_linear_pcm()
    }

    /// A linear PCM format. The samples are packed whatever `flags` say.
    pub fn new(
        sample_rate: u64,
        sample_format: SampleFormat,
        flags: LinearPcmFlags,
        channels: usize,
    ) -> (r: Self)
        requires
            sample_format.spec_size_in_bytes() * channels <= u32::MAX,
        ensures
            r.wf(),
            r.spec_description() == StreamDescription::linear_pcm(
                sample_rate,
                sample_format,
                flags,
                channels,
            ),
    {
        let packed = flags.union(LinearPcmFlags::from_bits_truncate(LinearPcmFlags::IS_PACKED));
        let non_interleaved = flags.contains(
            LinearPcmFlags::from_bits_truncate(LinearPcmFlags::IS_NON_INTERLEAVED),
        );
        let size: usize = sample_format.size_in_bytes();
        assert(LinearPcmFlags::IS_PACKED & LinearPcmFlags::ALL == LinearPcmFlags::IS_PACKED)
            by (bit_vector);
        assert(LinearPcmFlags::IS_NON_INTERLEAVED & LinearPcmFlags::ALL
            == LinearPcmFlags::IS_NON_INTERLEAVED) by (bit_vector);
        let bytes_per_frame: u32 = if non_interleaved {
            size as u32
        } else {
            (size * channels) as u32
        };
        assert(channels <= size * channels) by (nonlinear_arith)
            requires
                size >= 1,
                channels >= 0,
        ;
        StreamFormat {
            asbd: StreamDescription {
                sample_rate,
                format_id: LINEAR_PCM,
                format_flags: packed.bits(),
                bytes_per_packet: bytes_per_frame,
                frames_per_packet: 1,
                bytes_per_frame,
                channels_per_frame: channels as u32,
                bits_per_channel: sample_format.size_in_bits(),
                reserved: 0,
            },
        }
    }

    /// The format that the record `asbd` describes. The record is refused
    /// unless it is linear PCM and its element is one of the sample formats.
    pub fn try_from(asbd: StreamDescription) -> (r: Result<Self, CAError>)
        ensures
            r is Ok <==> asbd.is_supported(),
            r matches Ok(f) ==> f.wf() && f.spec_description() == asbd,
            r matches Err(e) ==> e == CAError::AudioUnitError(AudioUnitError::FormatNotSupported),
    {
        if asbd.format_id != LINEAR_PCM {
            return Err(CAError::AudioUnitError(AudioUnitError::FormatNotSupported));
        }
        let flags = LinearPcmFlags::from_bits_truncate(asbd.format_flags);
        match SampleFormat::from_flags_and_bits_per_sample(flags, asbd.bits_per_channel) {
            Some(format) => {
                assert(asbd.describes(format));
                Ok(StreamFormat { asbd })
            },
            None => Err(CAError::AudioUnitError(AudioUnitError::FormatNotSupported)),
        }
    }

    /// The record behind this format.
    #[verifier::when_used_as_spec(spec_description)]
    pub fn description(&self) -> (r: StreamDescription)
        ensures
            r == self.spec_description(),
    {
        self.asbd
    }

    /// The sample rate, as the bit pattern of an IEEE 754 double.
    pub fn sample_rate(&self) -> (r: u64)
        ensures
            r == self.spec_description().sample_rate,
    {
        self.asbd.sample_rate
    }

    /// The element type of the samples.
    pub fn sample_format(&self) -> (r: SampleFormat)
        requires
            self.spec_description().is_supported(),
        ensures
            Some(r) == self.spec_description().sample_format(),
    {
        let flags = LinearPcmFlags::from_bits_truncate(self.asbd.format_flags);
        match SampleFormat::from_flags_and_bits_per_sample(flags, self.asbd.bits_per_channel) {
            Some(format) => {
                proof {
                    let chosen = self.asbd.sample_format()->0;
                    lemma_sample_format_is_determined(
                        flags,
                        self.asbd.bits_per_channel,
                        format,
                        chosen,
                    );
                }
                format
            },
            None => SampleFormat::F32,
        }
    }

    /// The flags of the stream.
    pub fn flags(&self) -> (r: LinearPcmFlags)
        ensures
            r == self.spec_description().flags(),
    {
        let flags = LinearPcmFlags::from_bits_truncate(self.asbd.format_flags);
        flags
    }

    /// The number of channels in a frame.
    pub fn channels(&self) -> (r: usize)
        ensures
            r == self.spec_description().channels_per_frame,
    {
        self.asbd.channels_per_frame as usize
    }
}

/// A linear PCM format keeps what it was made from: where the flags fit the
/// sample format, the record of a new format is one that `try_from` accepts,
/// and the sample rate, the channel count and the sample format read back from
/// it are those that went in. The flags read back are the flags that went
/// in, packed.
pub proof fn lemma_stream_format_round_trip(
    sample_rate: u64,
    sample_format: SampleFormat,
    flags: LinearPcmFlags,
    channels: usize,
)
    requires
        channels <= u32::MAX,
        sample_format.matches(
            LinearPcmFlags::spec_from_bits_truncate(flags.spec_bits() | LinearPcmFlags::IS_PACKED),
        ),
    ensures
        ({
            let asbd = StreamDescription::linear_pcm(sample_rate, sample_format, flags, channels);
            &&& asbd.is_supported()
            &&& asbd.sample_rate == sample_rate
            &&& asbd.channels_per_frame == channels
            &&& asbd.sample_format() == Some(sample_format)
            &&& asbd.flags() == LinearPcmFlags::spec_from_bits_truncate(
                flags.spec_bits() | LinearPcmFlags::IS_PACKED,
            )
        }),
{
    let asbd = StreamDescription::linear_pcm(sample_rate, sample_format, flags, channels);
    assert(asbd.describes(sample_format));
    lemma_sample_format_is_determined(
        asbd.flags(),
        asbd.bits_per_channel,
        sample_format,
        asbd.sample_format()->0,
    );
}

} // verus!
