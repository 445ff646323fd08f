//! Immutable description of the requested output audio encoding.

use vstd::prelude::*;

verus! {

/// An audio format requested from the synthesis service: encoding family,
/// sample rate, channel layout, bit depth, and the protocol-level short code.
/// A value has no identity beyond its fields and is safely copied.
#[derive(Clone, Copy)]
pub struct AudioFormat<'a> {
    pub format: &'a str,
    pub sample_rate: u32,
    pub channels: &'a str,
    pub bit_rate: &'a str,
    pub format_str: &'a str,
}

impl<'a> AudioFormat<'a> {
    /// Builds a format description from its parts.
    pub fn new(
        format: &'a str,
        sample_rate: u32,
        channels: &'a str,
        bit_rate: &'a str,
        format_str: &'a str,
    ) -> (r: Self)
        ensures
            r.format == format,
            r.sample_rate == sample_rate,
            r.channels == channels,
            r.bit_rate == bit_rate,
            r.format_str == format_str,
    {
        Self { format, sample_rate, channels, bit_rate, format_str }
    }

    /// Pulse-code modulation at 24000 Hz, one channel, 16 bits per sample:
    /// the format the demo program requests.
    pub fn pcm_24000hz_mono_16bit() -> (r: AudioFormat<'static>)
        ensures
            r.format@ == "pcm"@,
            r.sample_rate == 24000,
            r.channels@ == "mono"@,
            r.bit_rate@ == "16bit"@,
            r.format_str@ == "pcm16"@,
    {
        AudioFormat {
            format: "pcm",
            sample_rate: 24000,
            channels: "mono",
            bit_rate: "16bit",
            format_str: "pcm16",
        }
    }
}

} // verus!
