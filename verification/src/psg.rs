//! The programmable sound generator: a write-only command stream of single
//! bytes, recorded for an executor to put on the sound port.

use vstd::prelude::*;

verus! {

/// A frequency for use with the noise generator.
#[derive(Clone, Copy, Debug, PartialEq, Eq, Structural)]
pub enum NoiseFrequency {
    High,
    Mid,
    Low,
    Channel2,
}

impl NoiseFrequency {
    /// The 2-bit register code of this noise frequency.
    pub open spec fn spec_code(self) -> u8 {
        match self {
            NoiseFrequency::High => 0,
            NoiseFrequency::Mid => 1,
            NoiseFrequency::Low => 2,
            NoiseFrequency::Channel2 => 3,
        }
    }

    /// The 2-bit register code of this noise frequency.
    #[verifier::when_used_as_spec(spec_code)]
    pub fn code(self) -> (r: u8)
        ensures
            r == self.spec_code(),
    {
        match self {
            NoiseFrequency::High => 0,
            NoiseFrequency::Mid => 1,
            NoiseFrequency::Low => 2,
            NoiseFrequency::Channel2 => 3,
        }
    }
}

/// A selection of note frequencies to use with the tone generators.
#[derive(Clone, Copy, Debug, PartialEq, Eq, Structural)]
pub enum Note {
    C3,
    CSharp3,
    D3,
    DSharp3,
    E3,
    F3,
    FSharp3,
    G3,
    GSharp3,
    A3,
    ASharp3,
    B3,
}

impl Note {
    /// The chip frequency value of this note in its base octave.
    pub open spec fn spec_value(self) -> u16 {
        match self {
            Note::C3 => 851,
            Note::CSharp3 => 803,
            Note::D3 => 758,
            Note::DSharp3 => 715,
            Note::E3 => 675,
            Note::F3 => 637,
            Note::FSharp3 => 601,
            Note::G3 => 568,
            Note::GSharp3 => 536,
            Note::A3 => 506,
            Note::ASharp3 => 477,
            Note::B3 => 450,
        }
    }

    /// The chip frequency value of this note in its base octave.
    #[verifier::when_used_as_spec(spec_value)]
    pub fn value(self) -> (r: u16)
        ensures
            r == self.spec_value(),
    {
        match self {
            Note::C3 => 851,
            Note::CSharp3 => 803,
            Note::D3 => 758,
            Note::DSharp3 => 715,
            Note::E3 => 675,
            Note::F3 => 637,
            Note::FSharp3 => 601,
            Note::G3 => 568,
            Note::GSharp3 => 536,
            Note::A3 => 506,
            Note::ASharp3 => 477,
            Note::B3 => 450,
        }
    }

    /// Return a frequency value for the given note increased by the given
    /// number of octaves.
    pub fn increase_octave(self, o: usize) -> (r: u16)
        requires
            o < 16,
        ensures
            r == self.spec_value() >> o,
    {
        self.value() >> o
    }
}

/// The command byte that sets a channel's attenuation from a volume.
pub open spec fn volume_cmd(channel: u8, volume: u8) -> u8 {
    0x90 | ((channel & 3) << 5) | ((0x1f - (volume & 0x1f)) as u8)
}

/// The first command byte of a pitch change: the channel and the low
/// nibble of the frequency.
pub open spec fn pitch_cmd_lo(channel: u8, frequency: u16) -> u8 {
    0x80 | ((channel & 3) << 5) | ((frequency as u8) & 0xf)
}

/// The second command byte of a pitch change: the high bits of the
/// frequency.
pub open spec fn pitch_cmd_hi(frequency: u16) -> u8 {
    (frequency >> 4) as u8
}

/// The command byte that configures the noise channel.
pub open spec fn noise_cmd(white: bool, frequency: NoiseFrequency) -> u8 {
    0xe0 | (if white {
        4u8
    } else {
        0u8
    }) | frequency.spec_code()
}

/// Masking by a low bit mask bounds the result by that mask.
proof fn lemma_psg_masks()
    by (bit_vector)
    ensures
        forall|v: u8| #[trigger] (v & 0x1f) <= 0x1f,
{
}

/// The programmable sound generator.
///
/// This chip can generate noise and some square waves. Mostly this is used
/// for sound effects. Command bytes are recorded in order; the executor
/// writes each to the sound port.
pub struct PSG {
    ops: Vec<u8>,
}

impl PSG {
    /// The command bytes recorded and not yet handed to the executor.
    pub closed spec fn log(self) -> Seq<u8> {
        self.ops@
    }

    /// Initialise and return the PSG, with every channel silenced.
    pub fn new() -> (r: PSG)
        ensures
            r.log() == seq![
                volume_cmd(0, 0),
                volume_cmd(1, 0),
                volume_cmd(2, 0),
                volume_cmd(3, 0),
            ],
    {
        let mut psg = PSG { ops: Vec::new() };
        psg.set_volume(0, 0);
        psg.set_volume(1, 0);
        psg.set_volume(2, 0);
        psg.set_volume(3, 0);
        proof {
            assert(psg.log() =~= seq![
                volume_cmd(0, 0),
                volume_cmd(1, 0),
                volume_cmd(2, 0),
                volume_cmd(3, 0),
            ]);
        }
        psg
    }

    /// Hand the recorded command bytes to the caller and clear the log.
    pub fn take_ops(&mut self) -> (r: Vec<u8>)
        ensures
            r@ == old(self).log(),
            final(self).log() == Seq::<u8>::empty(),
    {
        let mut out: Vec<u8> = Vec::new();
        core::mem::swap(&mut out, &mut self.ops);
        out
    }

    /// Set the volume of a channel.
    pub fn set_volume(&mut self, channel: u8, volume: u8)
        ensures
            final(self).log() == old(self).log().push(volume_cmd(channel, volume)),
    {
        proof {
            lemma_psg_masks();
        }
        self.ops.push(0x90 | ((channel & 3) << 5) | (0x1f - (volume & 0x1f)));
    }

    /// Set the pitch of one of the channels.
    ///
    /// This is not valid for the noise generator on channel 3.
    pub fn set_pitch(&mut self, channel: u8, frequency: u16)
        ensures
            final(self).log() == old(self).log() + seq![
                pitch_cmd_lo(channel, frequency),
                pitch_cmd_hi(frequency),
            ],
    {
        self.ops.push(0x80 | ((channel & 3) << 5) | ((frequency as u8) & 0xf));
        self.ops.push((frequency >> 4) as u8);
        proof {
            assert(final(self).log() =~= old(self).log() + seq![
                pitch_cmd_lo(channel, frequency),
                pitch_cmd_hi(frequency),
            ]);
        }
    }

    /// Configure the noise channel.
    pub fn set_noise(&mut self, white: bool, frequency: NoiseFrequency)
        ensures
            final(self).log() == old(self).log().push(noise_cmd(white, frequency)),
    {
        let w: u8 = if white {
            4
        } else {
            0
        };
        self.ops.push(0xe0 | w | frequency.code());
    }
}

} // verus!
