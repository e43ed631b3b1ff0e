//! Requested formats and the wire format that the device negotiates.
use vstd::prelude::*;

verus! {

/// Number of channels of a stream.
pub type ChannelsCount = u16;

/// Number of frames per second.
#[derive(Clone, Copy, Debug, PartialEq, Eq, Structural)]
pub struct SamplesRate(pub u32);

/// How one sample is represented.
#[derive(Clone, Copy, Debug, PartialEq, Eq, Structural)]
pub enum SampleFormat {
    /// Signed 16-bit integer.
    I16,
    /// Unsigned 16-bit integer.
    U16,
    /// 32-bit IEEE float.
    F32,
}

impl SampleFormat {
    /// Bytes that one sample takes.
    pub open spec fn sample_size(self) -> nat {
        match self {
            SampleFormat::I16 => 2,
            SampleFormat::U16 => 2,
            SampleFormat::F32 => 4,
        }
    }

    /// Bytes that one sample takes.
    pub fn get_sample_size(&self) -> (size: usize)
        ensures
            size == self.sample_size(),
    {
        match self {
            SampleFormat::I16 => 2,
            SampleFormat::U16 => 2,
            SampleFormat::F32 => 4,
        }
    }
}

/// The format a caller asks for.
#[derive(Clone, Copy, Debug, PartialEq, Eq, Structural)]
pub struct Format {
    pub channels: ChannelsCount,
    pub samples_rate: SamplesRate,
    pub data_type: SampleFormat,
}

/// Format tag of plain PCM.
pub const WAVE_FORMAT_PCM: u16 = 1;

/// The wire format exchanged with the device.
#[derive(Clone, Copy, Debug, PartialEq, Eq, Structural)]
pub struct WaveFormat {
    pub format_tag: u16,
    pub channels: u16,
    pub samples_per_sec: u32,
    pub avg_bytes_per_sec: u32,
    pub block_align: u16,
    pub bits_per_sample: u16,
    pub extra_size: u16,
}

impl Format {
    /// Whether every field of the PCM wire format for this request fits its
    /// width on the wire.
    pub open spec fn encodable(self) -> bool {
        &&& self.channels * self.data_type.sample_size() <= u16::MAX
        &&& self.channels * self.samples_rate.0 * self.data_type.sample_size() <= u32::MAX
    }

    /// The PCM wire format that stands for this request: bytes per frame is
    /// channels times sample size, bits per sample is eight times sample
    /// size, and there are no extended fields.
    pub open spec fn wire(self) -> WaveFormat {
        WaveFormat {
            format_tag: WAVE_FORMAT_PCM,
            channels: self.channels,
            samples_per_sec: self.samples_rate.0,
            avg_bytes_per_sec: (self.channels * self.samples_rate.0
                * self.data_type.sample_size()) as u32,
            block_align: (self.channels * self.data_type.sample_size()) as u16,
            bits_per_sample: (8 * self.data_type.sample_size()) as u16,
            extra_size: 0,
        }
    }
}

impl WaveFormat {
    /// Builds the candidate wire format for a request, or nothing where a
    /// field would not fit its width.
    pub fn pcm(format: &Format) -> (candidate: Option<WaveFormat>)
        ensures
            candidate == if format.encodable() {
                Some(format.wire())
            } else {
                None::<WaveFormat>
            },
    {
        let size: u64 = format.data_type.get_sample_size() as u64;
        let block: u64 = format.channels as u64 * size;
        if block > u16::MAX as u64 {
            return None;
        }
        assert(block * format.samples_rate.0 <= 0xffff * 0xffff_ffff) by (nonlinear_arith)
            requires
                block <= 0xffff,
                format.samples_rate.0 <= 0xffff_ffff,
        ;
        let rate: u64 = block * format.samples_rate.0 as u64;
        assert(rate == format.channels * format.samples_rate.0 * format.data_type.sample_size())
            by (nonlinear_arith)
            requires
                block == format.channels * size,
                rate == block * format.samples_rate.0,
                size == format.data_type.sample_size(),
        ;
        if rate > u32::MAX as u64 {
            return None;
        }
        Some(
            WaveFormat {
                format_tag: WAVE_FORMAT_PCM,
                channels: format.channels,
                samples_per_sec: format.samples_rate.0,
                avg_bytes_per_sec: rate as u32,
                block_align: block as u16,
                bits_per_sample: (8 * size) as u16,
                extra_size: 0,
            },
        )
    }

    /// Whether a session can run on this format: at least one channel, a
    /// positive rate, whole bytes per sample, and a frame of exactly
    /// channels times sample width bytes.
    pub open spec fn playable(self) -> bool {
        &&& self.channels > 0
        &&& self.samples_per_sec > 0
        &&& self.bits_per_sample >= 8
        &&& self.bits_per_sample % 8 == 0
        &&& self.block_align == self.channels * (self.bits_per_sample / 8)
    }

    /// Tests [`WaveFormat::playable`].
    pub fn is_playable(&self) -> (ok: bool)
        ensures
            ok == self.playable(),
    {
        let width: u32 = self.bits_per_sample as u32 / 8;
        assert(self.channels * width <= 0xffff * 0x1fff) by (nonlinear_arith)
            requires
                self.channels <= 0xffff,
                width <= 0x1fff,
        ;
        self.channels > 0 && self.samples_per_sec > 0 && self.bits_per_sample >= 8
            && self.bits_per_sample % 8 == 0 && self.block_align as u32 == self.channels as u32
            * width
    }
}

} // verus!
