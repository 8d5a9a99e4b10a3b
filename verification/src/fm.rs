//! The FM synthesizer driver: register writes into the chip's two banks,
//! recorded for an executor that busy-waits on the chip's ready bit before
//! each address/value pair.

use vstd::prelude::*;

verus! {

pub const FM_LFO: u8 = 0x22;

pub const FM_TIMER_A_HI: u8 = 0x24;

pub const FM_TIMER_A_LO: u8 = 0x25;

pub const FM_TIMER_B: u8 = 0x25;

pub const FM_TIMER_CTRL: u8 = 0x27;

pub const FM_KEY_ON: u8 = 0x28;

pub const FM_DAC_DATA: u8 = 0x2a;

pub const FM_DAC_ENABLE: u8 = 0x2b;

pub const FM_MULTIPLY: u8 = 0x30;

pub const FM_TOTAL_LEVEL: u8 = 0x40;

pub const FM_ATTACK_RATE: u8 = 0x50;

pub const FM_DECAY_RATE: u8 = 0x60;

pub const FM_SUSTAIN_RATE: u8 = 0x70;

pub const FM_RELEASE_RATE: u8 = 0x80;

pub const FM_SSGEG: u8 = 0x90;

pub const FM_FREQUENCY_LO: u8 = 0xa0;

pub const FM_FREQUENCY_HI: u8 = 0xa4;

pub const FM_ALGORITHM: u8 = 0xb0;

pub const FM_PANNING: u8 = 0xb4;

/// An enum representing the 4 supported panning values for a bank.
#[derive(Clone, Copy, Debug, PartialEq, Eq, Structural)]
pub enum Panning {
    Off,
    Left,
    Right,
    Both,
}

impl Panning {
    /// The 2-bit register code of this panning.
    pub open spec fn spec_code(self) -> u8 {
        match self {
            Panning::Off => 0b00,
            Panning::Left => 0b10,
            Panning::Right => 0b01,
            Panning::Both => 0b11,
        }
    }

    /// The 2-bit register code of this panning.
    #[verifier::when_used_as_spec(spec_code)]
    pub fn code(self) -> (r: u8)
        ensures
            r == self.spec_code(),
    {
        match self {
            Panning::Off => 0b00,
            Panning::Left => 0b10,
            Panning::Right => 0b01,
            Panning::Both => 0b11,
        }
    }
}

/// Note frequencies for use with the FM chip.
///
/// These are slightly inaccurate since the NTSC & PAL versions of the
/// console operate the FM chip at slightly different frequencies.
#[derive(Clone, Copy, Debug, PartialEq, Eq, Structural)]
pub enum Note {
    C,
    CSharp,
    D,
    DSharp,
    E,
    F,
    FSharp,
    G,
    GSharp,
    A,
    ASharp,
    B,
}

impl Note {
    /// The chip frequency value of this note.
    pub open spec fn spec_value(self) -> u16 {
        match self {
            Note::C => 644,
            Note::CSharp => 681,
            Note::D => 722,
            Note::DSharp => 765,
            Note::E => 810,
            Note::F => 858,
            Note::FSharp => 910,
            Note::G => 964,
            Note::GSharp => 1021,
            Note::A => 1081,
            Note::ASharp => 1146,
            Note::B => 1214,
        }
    }

    /// The chip frequency value of this note.
    #[verifier::when_used_as_spec(spec_value)]
    pub fn value(self) -> (r: u16)
        ensures
            r == self.spec_value(),
    {
        match self {
            Note::C => 644,
            Note::CSharp => 681,
            Note::D => 722,
            Note::DSharp => 765,
            Note::E => 810,
            Note::F => 858,
            Note::FSharp => 910,
            Note::G => 964,
            Note::GSharp => 1021,
            Note::A => 1081,
            Note::ASharp => 1146,
            Note::B => 1214,
        }
    }
}

/// Frequency enumeration for the Low-Frequency Oscillator.
#[derive(Clone, Copy, Debug, PartialEq, Eq, Structural)]
pub enum LFORate {
    F3_82Hz,
    F5_33Hz,
    F5_77Hz,
    F6_11Hz,
    F6_60Hz,
    F9_23Hz,
    F46_11Hz,
    F69_22Hz,
}

impl LFORate {
    /// The 3-bit register code of this rate.
    pub open spec fn spec_code(self) -> u8 {
        match self {
            LFORate::F3_82Hz => 0b000,
            LFORate::F5_33Hz => 0b001,
            LFORate::F5_77Hz => 0b010,
            LFORate::F6_11Hz => 0b011,
            LFORate::F6_60Hz => 0b100,
            LFORate::F9_23Hz => 0b101,
            LFORate::F46_11Hz => 0b110,
            LFORate::F69_22Hz => 0b111,
        }
    }

    /// The 3-bit register code of this rate.
    #[verifier::when_used_as_spec(spec_code)]
    pub fn code(self) -> (r: u8)
        ensures
            r == self.spec_code(),
    {
        match self {
            LFORate::F3_82Hz => 0b000,
            LFORate::F5_33Hz => 0b001,
            LFORate::F5_77Hz => 0b010,
            LFORate::F6_11Hz => 0b011,
            LFORate::F6_60Hz => 0b100,
            LFORate::F9_23Hz => 0b101,
            LFORate::F46_11Hz => 0b110,
            LFORate::F69_22Hz => 0b111,
        }
    }
}

/// A struct for formatting the timer config used by the FM chip.
#[derive(Clone, Copy, Debug, PartialEq, Eq, Structural)]
pub struct TimerConfig(u8);

impl TimerConfig {
    /// The raw timer-control register byte.
    pub closed spec fn bits(self) -> u8 {
        self.0
    }

    /// Create a new timer config with CH3 in normal mode and both timers
    /// disabled.
    pub fn new() -> (r: TimerConfig)
        ensures
            r.bits() == 0,
    {
        TimerConfig(0)
    }

    /// Configure channel 3 'special mode'.
    pub fn ch3_special_mode(self, v: bool) -> (r: TimerConfig)
        ensures
            r.bits() == (self.bits() & 0x3f) | (if v {
                0x40u8
            } else {
                0u8
            }),
    {
        let f: u8 = if v {
            0x40
        } else {
            0
        };
        TimerConfig((self.0 & 0x3f) | f)
    }

    /// Enable or disable timer A.
    ///
    /// If `e` is set, the timer is enabled and will count.
    /// If `r` is set, the timer will set the completed flag when it wraps.
    pub fn enable_timer_a(self, e: bool, r: bool) -> (t: TimerConfig)
        ensures
            t.bits() == (self.bits() & 0xfa) | (if e {
                4u8
            } else {
                0u8
            }) | (if r {
                1u8
            } else {
                0u8
            }),
    {
        let fe: u8 = if e {
            4
        } else {
            0
        };
        let fr: u8 = if r {
            1
        } else {
            0
        };
        TimerConfig((self.0 & 0xfa) | fe | fr)
    }

    /// Enable or disable timer B.
    ///
    /// If `e` is set, the timer is enabled and will count.
    /// If `r` is set, the timer will set the completed flag when it wraps.
    pub fn enable_timer_b(self, e: bool, r: bool) -> (t: TimerConfig)
        ensures
            t.bits() == (self.bits() & 0xf5) | (if e {
                8u8
            } else {
                0u8
            }) | (if r {
                2u8
            } else {
                0u8
            }),
    {
        let fe: u8 = if e {
            8
        } else {
            0
        };
        let fr: u8 = if r {
            2
        } else {
            0
        };
        TimerConfig((self.0 & 0xf5) | fe | fr)
    }

    /// Reset timer A.
    pub fn reset_timer_a(self, v: bool) -> (r: TimerConfig)
        ensures
            r.bits() == (if v {
                self.bits() | 0x10
            } else {
                self.bits() & !0x10
            }),
    {
        let v = if v {
            self.0 | 0x10
        } else {
            self.0 & !0x10
        };
        TimerConfig(v)
    }

    /// Reset timer B.
    pub fn reset_timer_b(self, v: bool) -> (r: TimerConfig)
        ensures
            r.bits() == (if v {
                self.bits() | 0x20
            } else {
                self.bits() & !0x20
            }),
    {
        let v = if v {
            self.0 | 0x20
        } else {
            self.0 & !0x20
        };
        TimerConfig(v)
    }
}

/// One write of a value into a register of one of the chip's two banks.
/// The executor busy-waits until the chip reports idle, writes the address
/// byte, then the value byte.
#[derive(Clone, Copy, Debug, PartialEq, Eq, Structural)]
pub struct FmWrite {
    pub bank2: bool,
    pub addr: u8,
    pub value: u8,
}

/// The register write a channel-indexed operation issues: channels above 3
/// live in the second bank, and the low two channel bits select the
/// register within the base.
pub open spec fn ch_write(base: u8, channel: u8, value: u8) -> FmWrite {
    let c = if channel > 3 {
        (channel - 3) as u8
    } else {
        channel
    };
    FmWrite { bank2: channel > 3, addr: (base + (c & 3)) as u8, value }
}

/// The register write an operator-indexed operation issues: the operator
/// index selects bits 2-3 of the register address.
pub open spec fn op_write(base: u8, channel: u8, op: u8, value: u8) -> FmWrite {
    let c = if channel > 3 {
        (channel - 3) as u8
    } else {
        channel
    };
    FmWrite { bank2: channel > 3, addr: base | (c & 3) | ((op & 3) << 2), value }
}

/// The LFO register value: the enable bit over the rate, or all clear.
pub open spec fn lfo_value(rate: Option<LFORate>) -> u8 {
    match rate {
        Some(v) => 8 | (v.spec_code() & 7),
        None => 0,
    }
}

/// The key-on register value: the hardware channel number (which skips
/// slot 3) under the operator mask.
pub open spec fn key_value(channel: u8, operator_mask: u8) -> u8 {
    (hw_channel(channel) & 7) | (operator_mask << 4)
}

/// The hardware channel number of a logical channel index: the chip's six
/// channels are numbered 0-2 and 4-6.
pub open spec fn spec_hw_channel(channel: u8) -> u8 {
    match channel {
        0 => 0,
        1 => 1,
        2 => 2,
        3 => 4,
        4 => 5,
        _ => 6,
    }
}

/// The hardware channel number of a logical channel index.
#[verifier::when_used_as_spec(spec_hw_channel)]
pub fn hw_channel(channel: u8) -> (r: u8)
    ensures
        r == spec_hw_channel(channel),
{
    match channel {
        0 => 0,
        1 => 1,
        2 => 2,
        3 => 4,
        4 => 5,
        _ => 6,
    }
}

/// The panning register value: panning in the top bits, amplitude and
/// frequency modulation sensitivity below.
pub open spec fn panning_value(panning: Panning, ams: u8, fms: u8) -> u8 {
    (panning.spec_code() << 6) | ((ams & 3) << 4) | (fms & 7)
}

/// The writes that silence and neutralise one channel at start-up:
/// panning off, key up, and the proprietary register of each of the four
/// operators cleared.
pub open spec fn fm_channel_init(c: u8) -> Seq<FmWrite> {
    seq![
        ch_write(FM_PANNING, c, panning_value(Panning::Off, 0, 0)),
        FmWrite { bank2: false, addr: FM_KEY_ON, value: key_value(c, 0) },
        op_write(FM_SSGEG, c, 0, 0),
        op_write(FM_SSGEG, c, 1, 0),
        op_write(FM_SSGEG, c, 2, 0),
        op_write(FM_SSGEG, c, 3, 0),
    ]
}

/// The start-up writes of the first `n` channels.
pub open spec fn fm_channels_init(n: int) -> Seq<FmWrite>
    decreases n,
{
    if n <= 0 {
        Seq::empty()
    } else {
        fm_channels_init(n - 1) + fm_channel_init((n - 1) as u8)
    }
}

/// The whole start-up protocol: LFO off, timers cleared, DAC off, then
/// every channel silenced.
pub open spec fn fm_init_ops() -> Seq<FmWrite> {
    seq![
        FmWrite { bank2: false, addr: FM_LFO, value: 0 },
        FmWrite { bank2: false, addr: FM_TIMER_CTRL, value: 0 },
        FmWrite { bank2: false, addr: FM_DAC_ENABLE, value: 0 },
    ] + fm_channels_init(6)
}

/// Masking by a low bit mask bounds the result by that mask.
proof fn lemma_fm_masks()
    by (bit_vector)
    ensures
        forall|v: u8| #[trigger] (v & 3) <= 3,
{
}

/// A driver for the FM synthesizer.
///
/// Whilst normally controlled by the sound co-processor, this driver can
/// be used to operate the chip from the main CPU.
pub struct FM {
    ops: Vec<FmWrite>,
}

impl FM {
    /// The register writes recorded and not yet handed to the executor.
    pub closed spec fn log(self) -> Seq<FmWrite> {
        self.ops@
    }

    /// Initialise the FM hardware and return an object for manipulating
    /// it, with the LFO, timers and DAC off and every channel silenced.
    pub fn new() -> (r: FM)
        ensures
            r.log() == fm_init_ops(),
    {
        let mut fm = FM { ops: Vec::new() };
        fm.enable_lfo(None);
        fm.configure_timers(TimerConfig::new());
        fm.enable_dac(false);

        let chans = fm.channels();
        let mut ci: usize = 0;
        while ci < chans.len()
            invariant
                chans@.len() == 6,
                forall|i: int| 0 <= i < 6 ==> #[trigger] chans@[i].spec_index() == i,
                ci <= 6,
                fm.log() == seq![
                    FmWrite { bank2: false, addr: FM_LFO, value: 0 },
                    FmWrite { bank2: false, addr: FM_TIMER_CTRL, value: 0 },
                    FmWrite { bank2: false, addr: FM_DAC_ENABLE, value: 0 },
                ] + fm_channels_init(ci as int),
            decreases 6 - ci,
        {
            let ghost chbase = fm.log();
            let ch = chans[ci];
            ch.set_panning(&mut fm, Panning::Off, 0, 0);
            ch.set_key(&mut fm, false);
            let ops = ch.operators();
            ops[0].set_ssgeg(&mut fm, 0);
            ops[1].set_ssgeg(&mut fm, 0);
            ops[2].set_ssgeg(&mut fm, 0);
            ops[3].set_ssgeg(&mut fm, 0);
            ci += 1;
            proof {
                assert(fm.log() =~= chbase + fm_channel_init((ci - 1) as u8));
                assert(fm.log() =~= seq![
                    FmWrite { bank2: false, addr: FM_LFO, value: 0 },
                    FmWrite { bank2: false, addr: FM_TIMER_CTRL, value: 0 },
                    FmWrite { bank2: false, addr: FM_DAC_ENABLE, value: 0 },
                ] + fm_channels_init(ci as int));
            }
        }
        proof {
            assert(fm.log() =~= fm_init_ops());
        }
        fm
    }

    /// Hand the recorded register writes to the caller and clear the log.
    pub fn take_ops(&mut self) -> (r: Vec<FmWrite>)
        ensures
            r@ == old(self).log(),
            final(self).log() == Seq::<FmWrite>::empty(),
    {
        let mut out: Vec<FmWrite> = Vec::new();
        core::mem::swap(&mut out, &mut self.ops);
        out
    }

    /// Record one bank write.
    fn write_reg_bank(&mut self, second: bool, addr: u8, value: u8)
        ensures
            final(self).log() == old(self).log().push(
                FmWrite { bank2: second, addr, value },
            ),
    {
        self.ops.push(FmWrite { bank2: second, addr, value });
    }

    /// Record one first-bank write.
    fn write_reg(&mut self, addr: u8, value: u8)
        ensures
            final(self).log() == old(self).log().push(
                FmWrite { bank2: false, addr, value },
            ),
    {
        self.write_reg_bank(false, addr, value);
    }

    /// Enable or disable the LFO unit.
    ///
    /// This enables and sets the frequency of the low-frequency-oscillator.
    /// This is not enough to employ it - the LFO needs to be enabled per
    /// operator.
    pub fn enable_lfo(&mut self, rate: Option<LFORate>)
        ensures
            final(self).log() == old(self).log().push(
                FmWrite { bank2: false, addr: FM_LFO, value: lfo_value(rate) },
            ),
    {
        let v = match rate {
            Some(r) => 8 | (r.code() & 7),
            None => 0,
        };
        self.write_reg(FM_LFO, v);
    }

    /// Enables or disables the DAC, which replaces channel 6.
    pub fn enable_dac(&mut self, enabled: bool)
        ensures
            final(self).log() == old(self).log().push(
                FmWrite {
                    bank2: false,
                    addr: FM_DAC_ENABLE,
                    value: (if enabled {
                        0x80u8
                    } else {
                        0u8
                    }),
                },
            ),
    {
        let v: u8 = if enabled {
            0x80
        } else {
            0
        };
        self.write_reg(FM_DAC_ENABLE, v);
    }

    /// Write a single sample to the DAC.
    pub fn dac_write(&mut self, v: u8)
        ensures
            final(self).log() == old(self).log().push(
                FmWrite { bank2: false, addr: FM_DAC_DATA, value: v },
            ),
    {
        self.write_reg(FM_DAC_DATA, v);
    }

    /// Configure the frequency of timer A.
    ///
    /// The interval is calculated as `(1024 - f) * 18 us`.
    pub fn set_timer_a(&mut self, f: u16)
        ensures
            final(self).log() == old(self).log() + seq![
                FmWrite { bank2: false, addr: FM_TIMER_A_HI, value: (f >> 2) as u8 },
                FmWrite { bank2: false, addr: FM_TIMER_A_LO, value: (f & 3) as u8 },
            ],
    {
        let hi = (f >> 2) as u8;
        let lo = (f & 3) as u8;

        self.write_reg(FM_TIMER_A_HI, hi);
        self.write_reg(FM_TIMER_A_LO, lo);
        proof {
            assert(final(self).log() =~= old(self).log() + seq![
                FmWrite { bank2: false, addr: FM_TIMER_A_HI, value: (f >> 2) as u8 },
                FmWrite { bank2: false, addr: FM_TIMER_A_LO, value: (f & 3) as u8 },
            ]);
        }
    }

    /// Configure the frequency of timer B.
    ///
    /// The interval is calculated as `(256 - f) * 288 us`.
    pub fn set_timer_b(&mut self, f: u8)
        ensures
            final(self).log() == old(self).log().push(
                FmWrite { bank2: false, addr: FM_TIMER_B, value: f },
            ),
    {
        self.write_reg(FM_TIMER_B, f);
    }

    /// Configure the timers.
    pub fn configure_timers(&mut self, c: TimerConfig)
        ensures
            final(self).log() == old(self).log().push(
                FmWrite { bank2: false, addr: FM_TIMER_CTRL, value: c.bits() },
            ),
    {
        self.write_reg(FM_TIMER_CTRL, c.0)
    }

    /// Decode whether the timers have completed from the raw status byte
    /// the executor reads off the chip.
    pub fn timer_status(&self, raw: u8) -> (r: (bool, bool))
        ensures
            r.0 == (raw & 1 != 0),
            r.1 == (raw & 2 != 0),
    {
        ((raw & 1) != 0, (raw & 2) != 0)
    }

    /// Fetch a single FM channel.
    pub fn channel(&self, channel: u8) -> (r: Channel)
        ensures
            r.spec_index() == channel & 7,
    {
        Channel { index: channel & 7 }
    }

    /// Fetch all of the channels of the FM chip.
    pub fn channels(&self) -> (r: Vec<Channel>)
        ensures
            r@.len() == 6,
            forall|i: int| 0 <= i < 6 ==> #[trigger] r@[i].spec_index() == i,
    {
        let mut v: Vec<Channel> = Vec::new();
        v.push(Channel { index: 0 });
        v.push(Channel { index: 1 });
        v.push(Channel { index: 2 });
        v.push(Channel { index: 3 });
        v.push(Channel { index: 4 });
        v.push(Channel { index: 5 });
        v
    }
}

/// A single FM channel.
///
/// This is a hardware voice. It can only be playing one note at a time.
/// The channel itself is a plain index; its operations take the driver
/// handle they write through.
#[derive(Clone, Copy, Debug, PartialEq, Eq, Structural)]
pub struct Channel {
    index: u8,
}

impl Channel {
    /// The logical index of this channel.
    pub closed spec fn spec_index(self) -> u8 {
        self.index
    }

    /// Record one write to this channel's slice of a register base.
    fn write_reg(&self, fm: &mut FM, base: u8, value: u8)
        requires
            base <= 0xf0,
        ensures
            final(fm).log() == old(fm).log().push(ch_write(base, self.spec_index(), value)),
    {
        proof {
            lemma_fm_masks();
        }
        let channel = self.index;
        let (c, second) = if channel > 3 {
            (channel - 3, true)
        } else {
            (channel, false)
        };
        let addr = base + (c & 3);
        fm.write_reg_bank(second, addr, value);
    }

    /// Set whether the key is down for a channel.
    ///
    /// This version allows setting key down individually per-operator,
    /// however generally `set_key` alone is sufficient.
    pub fn set_key_raw(&self, fm: &mut FM, operator_mask: u8)
        requires
            self.spec_index() < 6,
        ensures
            final(fm).log() == old(fm).log().push(
                FmWrite {
                    bank2: false,
                    addr: FM_KEY_ON,
                    value: key_value(self.spec_index(), operator_mask),
                },
            ),
    {
        let v = (hw_channel(self.index) & 7) | (operator_mask << 4);
        fm.write_reg(FM_KEY_ON, v);
    }

    /// Set whether the key for a particular channel is down.
    pub fn set_key(&self, fm: &mut FM, down: bool)
        requires
            self.spec_index() < 6,
        ensures
            final(fm).log() == old(fm).log().push(
                FmWrite {
                    bank2: false,
                    addr: FM_KEY_ON,
                    value: key_value(
                        self.spec_index(),
                        (if down {
                            0xfu8
                        } else {
                            0u8
                        }),
                    ),
                },
            ),
    {
        let mask: u8 = if down {
            0xf
        } else {
            0
        };
        self.set_key_raw(fm, mask);
    }

    /// Set the frequency for a bank.
    ///
    /// The frequency is specified in chip-specific units. Use the `Note`
    /// enum for pre-calculated values.
    ///
    /// Octave can be used to increase the octave (the maximum value is 7).
    pub fn set_frequency(&self, fm: &mut FM, frequency: u16, octave: u8)
        ensures
            final(fm).log() == old(fm).log() + seq![
                ch_write(
                    FM_FREQUENCY_HI,
                    self.spec_index(),
                    (((frequency >> 8) as u8) & 7) | ((octave & 7) << 3),
                ),
                ch_write(FM_FREQUENCY_LO, self.spec_index(), frequency as u8),
            ],
    {
        let lo = frequency as u8;
        let hi = (((frequency >> 8) as u8) & 7) | ((octave & 7) << 3);

        self.write_reg(fm, FM_FREQUENCY_HI, hi);
        self.write_reg(fm, FM_FREQUENCY_LO, lo);
        proof {
            assert(final(fm).log() =~= old(fm).log() + seq![
                ch_write(
                    FM_FREQUENCY_HI,
                    self.spec_index(),
                    (((frequency >> 8) as u8) & 7) | ((octave & 7) << 3),
                ),
                ch_write(FM_FREQUENCY_LO, self.spec_index(), frequency as u8),
            ]);
        }
    }

    /// Set the algorithm and feedback for a bank.
    pub fn set_algorithm(&self, fm: &mut FM, algorithm: u8, feedback: u8)
        ensures
            final(fm).log() == old(fm).log().push(
                ch_write(
                    FM_ALGORITHM,
                    self.spec_index(),
                    (algorithm & 7) | ((feedback & 7) << 3),
                ),
            ),
    {
        let v = (algorithm & 7) | ((feedback & 7) << 3);
        self.write_reg(fm, FM_ALGORITHM, v);
    }

    /// Set the panning, frequency modulation and amplitude modulation for
    /// a bank.
    pub fn set_panning(&self, fm: &mut FM, panning: Panning, ams: u8, fms: u8)
        ensures
            final(fm).log() == old(fm).log().push(
                ch_write(FM_PANNING, self.spec_index(), panning_value(panning, ams, fms)),
            ),
    {
        let v = (panning.code() << 6) | ((ams & 3) << 4) | (fms & 7);
        self.write_reg(fm, FM_PANNING, v);
    }

    /// Get one of this channel's operators.
    pub fn operator(&self, operator: u8) -> (r: Operator)
        ensures
            r.spec_channel() == self.spec_index(),
            r.spec_op() == operator & 3,
    {
        Operator { channel: self.index, op: operator & 3 }
    }

    /// Get all of the operators for this channel.
    pub fn operators(&self) -> (r: Vec<Operator>)
        ensures
            r@.len() == 4,
            forall|i: int|
                0 <= i < 4 ==> #[trigger] r@[i].spec_op() == i && r@[i].spec_channel()
                    == self.spec_index(),
    {
        let mut v: Vec<Operator> = Vec::new();
        v.push(Operator { channel: self.index, op: 0 });
        v.push(Operator { channel: self.index, op: 1 });
        v.push(Operator { channel: self.index, op: 2 });
        v.push(Operator { channel: self.index, op: 3 });
        v
    }
}

/// A single modulator in the channel.
///
/// These are chained together to produce the output waveform.
#[derive(Clone, Copy, Debug, PartialEq, Eq, Structural)]
pub struct Operator {
    channel: u8,
    op: u8,
}

impl Operator {
    /// The logical index of the channel this operator belongs to.
    pub closed spec fn spec_channel(self) -> u8 {
        self.channel
    }

    /// The index of this operator within its channel.
    pub closed spec fn spec_op(self) -> u8 {
        self.op
    }

    /// Record one write to this operator's slice of a register base.
    fn write_reg(&self, fm: &mut FM, base: u8, value: u8)
        ensures
            final(fm).log() == old(fm).log().push(
                op_write(base, self.spec_channel(), self.spec_op(), value),
            ),
    {
        let channel = self.channel;
        let (c, second) = if channel > 3 {
            (channel - 3, true)
        } else {
            (channel, false)
        };
        let addr = base | (c & 3) | ((self.op & 3) << 2);
        fm.write_reg_bank(second, addr, value);
    }

    /// Set the operator multiplier & detuning.
    ///
    /// The multiply value is as written, except that 0 means 0.5.
    pub fn set_multiplier(&self, fm: &mut FM, multiply: u8, detune: u8)
        ensures
            final(fm).log() == old(fm).log().push(
                op_write(
                    FM_MULTIPLY,
                    self.spec_channel(),
                    self.spec_op(),
                    ((detune & 7) << 4) | (multiply & 0xf),
                ),
            ),
    {
        let v = ((detune & 7) << 4) | (multiply & 0xf);
        self.write_reg(fm, FM_MULTIPLY, v);
    }

    /// Set the total level (volume) of a single operator.
    ///
    /// The maximum value is 127.
    pub fn set_total_level(&self, fm: &mut FM, level: u8)
        ensures
            final(fm).log() == old(fm).log().push(
                op_write(FM_TOTAL_LEVEL, self.spec_channel(), self.spec_op(), level & 0x7f),
            ),
    {
        self.write_reg(fm, FM_TOTAL_LEVEL, level & 0x7f);
    }

    /// Set the attack rate and attack rate scaling for an operator.
    ///
    /// The attack rate defines how quickly the operator reaches maximum
    /// amplitude (with 63 being the maximum).
    ///
    /// The attack rate scale is used to increase the attack rate at higher
    /// frequencies. 0 indicates no increase, increasing the value
    /// increases the attack rate.
    pub fn set_attack_rate(&self, fm: &mut FM, attack_rate: u8, rate_scale: u8)
        ensures
            final(fm).log() == old(fm).log().push(
                op_write(
                    FM_ATTACK_RATE,
                    self.spec_channel(),
                    self.spec_op(),
                    (attack_rate & 0x1f) | (rate_scale << 6),
                ),
            ),
    {
        let v = (attack_rate & 0x1f) | (rate_scale << 6);
        self.write_reg(fm, FM_ATTACK_RATE, v);
    }

    /// Set the decay rate and enable amplitude modulation.
    ///
    /// The higher the decay rate, the steeper the decay, with 31 being the
    /// maximum.
    ///
    /// If amon is true, the global amplitude modulation will be applied.
    pub fn set_decay_rate(&self, fm: &mut FM, decay_rate: u8, amon: bool)
        ensures
            final(fm).log() == old(fm).log().push(
                op_write(
                    FM_DECAY_RATE,
                    self.spec_channel(),
                    self.spec_op(),
                    (if amon {
                        0x80u8
                    } else {
                        0u8
                    }) | (decay_rate & 0x1f),
                ),
            ),
    {
        let a: u8 = if amon {
            0x80
        } else {
            0
        };
        let v = a | (decay_rate & 0x1f);
        self.write_reg(fm, FM_DECAY_RATE, v);
    }

    /// Set the sustain rate of the operator (also known as the second
    /// decay rate).
    ///
    /// The maximum value is 31. Higher values mean steeper decay.
    pub fn set_sustain_rate(&self, fm: &mut FM, sustain_rate: u8)
        ensures
            final(fm).log() == old(fm).log().push(
                op_write(
                    FM_SUSTAIN_RATE,
                    self.spec_channel(),
                    self.spec_op(),
                    sustain_rate & 0x1f,
                ),
            ),
    {
        let v = sustain_rate & 0x1f;
        self.write_reg(fm, FM_SUSTAIN_RATE, v);
    }

    /// Set the release rate and sustain level of an operator.
    pub fn set_release_rate(&self, fm: &mut FM, release_rate: u8, sustain_level: u8)
        ensures
            final(fm).log() == old(fm).log().push(
                op_write(
                    FM_RELEASE_RATE,
                    self.spec_channel(),
                    self.spec_op(),
                    (release_rate & 0xf) | ((sustain_level & 0xf) << 4),
                ),
            ),
    {
        let v = (release_rate & 0xf) | ((sustain_level & 0xf) << 4);
        self.write_reg(fm, FM_RELEASE_RATE, v);
    }

    /// Set the frequency for a single operator.
    ///
    /// This is only valid for channel 3 in 'special' mode.
    pub fn set_frequency_special(&self, fm: &mut FM, frequency: u16, octave: u8)
        requires
            self.spec_op() < 4,
        ensures
            final(fm).log() == old(fm).log() + seq![
                FmWrite {
                    bank2: false,
                    addr: spec_special_hi(self.spec_op()),
                    value: (((frequency >> 8) as u8) & 7) | ((octave & 7) << 3),
                },
                FmWrite {
                    bank2: false,
                    addr: spec_special_lo(self.spec_op()),
                    value: frequency as u8,
                },
            ],
    {
        let lo = frequency as u8;
        let hi = (((frequency >> 8) as u8) & 7) | ((octave & 7) << 3);
        fm.write_reg(special_hi(self.op), hi);
        fm.write_reg(special_lo(self.op), lo);
        proof {
            assert(final(fm).log() =~= old(fm).log() + seq![
                FmWrite {
                    bank2: false,
                    addr: spec_special_hi(self.spec_op()),
                    value: (((frequency >> 8) as u8) & 7) | ((octave & 7) << 3),
                },
                FmWrite {
                    bank2: false,
                    addr: spec_special_lo(self.spec_op()),
                    value: frequency as u8,
                },
            ]);
        }
    }

    /// Set the proprietary field.
    ///
    /// According to the documentation, this should always be set to zero.
    fn set_ssgeg(&self, fm: &mut FM, value: u8)
        ensures
            final(fm).log() == old(fm).log().push(
                op_write(FM_SSGEG, self.spec_channel(), self.spec_op(), value),
            ),
    {
        self.write_reg(fm, FM_SSGEG, value);
    }
}

/// The high-byte frequency register of each operator of the special mode.
pub open spec fn spec_special_hi(op: u8) -> u8 {
    match op {
        0 => 0xad,
        1 => 0xae,
        2 => 0xac,
        _ => 0xa6,
    }
}

/// The high-byte frequency register of each operator of the special mode.
#[verifier::when_used_as_spec(spec_special_hi)]
fn special_hi(op: u8) -> (r: u8)
    ensures
        r == spec_special_hi(op),
{
    match op {
        0 => 0xad,
        1 => 0xae,
        2 => 0xac,
        _ => 0xa6,
    }
}

/// The low-byte frequency register of each operator of the special mode.
pub open spec fn spec_special_lo(op: u8) -> u8 {
    match op {
        0 => 0xa9,
        1 => 0xaa,
        2 => 0xa8,
        _ => 0xa2,
    }
}

/// The low-byte frequency register of each operator of the special mode.
#[verifier::when_used_as_spec(spec_special_lo)]
fn special_lo(op: u8) -> (r: u8)
    ensures
        r == spec_special_lo(op),
{
    match op {
        0 => 0xa9,
        1 => 0xaa,
        2 => 0xa8,
        _ => 0xa2,
    }
}

} // verus!
