//! Worker-side logic of the emulation renderer: the live configuration, how
//! control commands change it, the per-chip setup plan, sample mixing and
//! output dithering, and the small pacing decisions of the worker loop.
//!
//! The SID DSP core itself is an outside C++ library; everything that must
//! reach it leaves this module as plain data (`SidInit`, `SidAction`,
//! mixed PCM frames) that the surrounding application feeds to the chips.

use vstd::prelude::*;

use crate::player::PlayerCommand;

verus! {

/// Capacity of the PCM ring between the worker and the audio callback.
pub const AUDIO_BUFFER_SIZE: usize = 65536;

/// Length of one per-chip mono sample buffer.
pub const SAMPLE_BUFFER_SIZE: usize = 8192;

/// PCM samples buffered beyond which the worker stops generating eagerly.
pub const AUDIO_STREAM_LIMIT: usize = 10_000;

/// PCM samples buffered beyond which a generation pass refuses to run.
pub const AUDIO_STREAM_MAX_LIMIT: usize = 55_000;

/// PAL SID clock in Hz.
pub const PAL_CLOCK: u32 = 985_248;

/// NTSC SID clock in Hz.
pub const NTSC_CLOCK: u32 = 1_022_727;

/// Default 6581 filter bias, in integer hundredths.
pub const DEFAULT_FILTER_BIAS_6581: i32 = 24;

/// Seconds of queue silence after which the audio stream is paused.
pub const PAUSE_AUDIO_IDLE_TIME_IN_SEC: u64 = 2;

/// Cycle budget one generation pass consumes from the write queue.
pub const CYCLES_PER_SAMPLE: u32 = 5000;

/// Sample rate assumed until the audio device reports its own.
pub const DEFAULT_SAMPLE_RATE: u32 = 48_000;

/// Pending cycles above which the worker may yield for a moment.
pub const CYCLES_IN_BUFFER_THRESHOLD: u32 = 10_000;

/// Buffered PCM above which the worker may yield for a moment.
pub const SOUND_BUFFER_SIZE_THRESHOLD: usize = 5000;

/// Milliseconds between pause/resume polls of the audio stream.
pub const STOP_PAUSE_LATENCY_IN_MILLIS: u64 = 10;

/// Cycles each freshly built chip is clocked before use, so its filters
/// settle.
pub const SID_WARMUP_CYCLES: u32 = 0xffff;

/// SID chip revision.
#[derive(Copy, Clone, PartialEq, Eq, Structural, Debug)]
pub enum ChipModel {
    Mos6581,
    Mos8580,
}

/// Resampling quality of the DSP core.
#[derive(Copy, Clone, PartialEq, Eq, Structural, Debug)]
pub enum SamplingKind {
    Interpolate,
    Resample,
}

/// Live renderer configuration, read at every generation pass.
pub struct Config {
    pub sample_rate: u32,
    pub sampling_method: SamplingKind,
    pub clock: u32,
    pub sid_count: i32,
    pub chip_model: Vec<ChipModel>,
    pub position_left: Vec<i32>,
    pub position_right: Vec<i32>,
    pub digiboost: bool,
    /// 6581 filter bias in integer hundredths (the DSP core takes it / 100).
    pub filter_bias_6581: i32,
    pub config_changed: bool,
}

impl Config {
    /// Well-formed: one entry per chip, panning within one byte's reach.
    pub open spec fn wf(&self) -> bool {
        &&& 1 <= self.sid_count <= 8
        &&& self.chip_model@.len() == self.sid_count
        &&& self.position_left@.len() == self.sid_count
        &&& self.position_right@.len() == self.sid_count
        &&& (forall|j: int|
            0 <= j < self.sid_count ==> -255 <= #[trigger] self.position_left@[j] <= 255)
        &&& (forall|j: int|
            0 <= j < self.sid_count ==> -255 <= #[trigger] self.position_right@[j] <= 255)
    }

    /// The configuration the renderer starts from: one PAL 6581, centred,
    /// resampling at the given rate.
    pub fn default_config(sample_rate: u32) -> (c: Config)
        ensures
            c.wf(),
            c.sample_rate == sample_rate,
            c.sampling_method == SamplingKind::Resample,
            c.clock == PAL_CLOCK,
            c.sid_count == 1,
            c.chip_model@ == seq![ChipModel::Mos6581],
            c.position_left@ == seq![0i32],
            c.position_right@ == seq![0i32],
            !c.digiboost,
            c.filter_bias_6581 == DEFAULT_FILTER_BIAS_6581,
            !c.config_changed,
    {
        let chip_model: Vec<ChipModel> = vec![ChipModel::Mos6581];
        let position_left: Vec<i32> = vec![0];
        let position_right: Vec<i32> = vec![0];
        proof {
            assert(chip_model@ =~= seq![ChipModel::Mos6581]);
            assert(position_left@ =~= seq![0i32]);
            assert(position_right@ =~= seq![0i32]);
        }
        Config {
            sample_rate,
            sampling_method: SamplingKind::Resample,
            clock: PAL_CLOCK,
            sid_count: 1,
            chip_model,
            position_left,
            position_right,
            digiboost: false,
            filter_bias_6581: DEFAULT_FILTER_BIAS_6581,
            config_changed: false,
        }
    }
}

/// One thing the application must do to the chips after a control command.
#[derive(Copy, Clone, PartialEq, Eq, Structural, Debug)]
pub enum SidAction {
    /// Set the voice mask of chip `sid`.
    SetVoiceMask { sid: usize, mask: u32 },
    /// Feed a DC input sample into chip `sid`.
    SetInput { sid: usize, sample: i16 },
    /// Adjust the filter bias of chip `sid`; the core takes hundredths / 100.
    AdjustFilterBias { sid: usize, bias_hundredths: i32 },
    /// Retune chip `sid` to a new output sample rate.
    AdjustSamplingFrequency { sid: usize, freq: i32 },
}

/// Chip actions that switching digi-boost produces on the first `n` chips:
/// every 8580 gets its fourth voice unmuted (or muted) and a DC input.
pub open spec fn digiboost_actions(models: Seq<ChipModel>, n: int, enable: bool) -> Seq<SidAction>
    decreases n,
{
    if n <= 0 {
        Seq::<SidAction>::empty()
    } else {
        digiboost_actions(models, n - 1, enable) + (if models[n - 1] == ChipModel::Mos8580 {
            if enable {
                seq![
                    SidAction::SetVoiceMask { sid: (n - 1) as usize, mask: 0x0f },
                    SidAction::SetInput { sid: (n - 1) as usize, sample: i16::MIN },
                ]
            } else {
                seq![
                    SidAction::SetVoiceMask { sid: (n - 1) as usize, mask: 0x07 },
                    SidAction::SetInput { sid: (n - 1) as usize, sample: 0i16 },
                ]
            }
        } else {
            Seq::<SidAction>::empty()
        })
    }
}

/// Chip actions a filter-bias change produces on the first `n` chips: every
/// 6581 gets the new bias.
pub open spec fn filter_bias_actions(models: Seq<ChipModel>, n: int, bias: i32) -> Seq<SidAction>
    decreases n,
{
    if n <= 0 {
        Seq::<SidAction>::empty()
    } else {
        filter_bias_actions(models, n - 1, bias) + (if models[n - 1] == ChipModel::Mos6581 {
            seq![SidAction::AdjustFilterBias { sid: (n - 1) as usize, bias_hundredths: bias }]
        } else {
            Seq::<SidAction>::empty()
        })
    }
}

/// Chip actions a sample-rate change produces: every chip is retuned.
pub open spec fn sampling_freq_actions(n: int, freq: i32) -> Seq<SidAction>
    decreases n,
{
    if n <= 0 {
        Seq::<SidAction>::empty()
    } else {
        sampling_freq_actions(n - 1, freq).push(
            SidAction::AdjustSamplingFrequency { sid: (n - 1) as usize, freq },
        )
    }
}

/// Apply one control command to the live configuration and say what the
/// application must do to the chips.  A command that changes how chips are
/// built marks the configuration dirty; the next generation pass rebuilds
/// them.
pub fn apply_player_command(
    config: &mut Config,
    command: PlayerCommand,
    param: Option<i32>,
) -> (actions: Vec<SidAction>)
    requires
        old(config).wf(),
        command == PlayerCommand::SetClock ==> param is Some,
        command == PlayerCommand::SetSamplingMethod ==> param is Some,
        command == PlayerCommand::SetSidCount ==> (param matches Some(n) && 1 <= n <= 8),
    ensures
        final(config).wf(),
        command == PlayerCommand::SetModel ==> actions@.len() == 0 && (match param {
            Some(p) => {
                let model = p & 0xff;
                let sid_number = p >> 8;
                &&& final(config).config_changed
                &&& final(config).chip_model@ == (if 0 <= sid_number < old(config).sid_count {
                    old(config).chip_model@.update(
                        sid_number as int,
                        if model == 0 {
                            ChipModel::Mos6581
                        } else {
                            ChipModel::Mos8580
                        },
                    )
                } else {
                    old(config).chip_model@
                })
                &&& *final(config) == (Config {
                    chip_model: final(config).chip_model,
                    config_changed: true,
                    ..*old(config)
                })
            },
            None => *final(config) == *old(config),
        }),
        command == PlayerCommand::SetClock ==> actions@.len() == 0 && *final(config) == (Config {
            clock: if param->Some_0 == 0 {
                PAL_CLOCK
            } else {
                NTSC_CLOCK
            },
            config_changed: true,
            ..*old(config)
        }),
        command == PlayerCommand::SetSidCount ==> ({
            let n = param->Some_0 as int;
            &&& actions@.len() == 0
            &&& final(config).sid_count == n
            &&& final(config).chip_model@.len() == n
            &&& (forall|j: int|
                0 <= j < n ==> #[trigger] final(config).chip_model@[j] == old(
                    config,
                ).chip_model@[0])
            &&& final(config).position_left@ == Seq::new(n as nat, |j: int| 0i32)
            &&& final(config).position_right@ == Seq::new(n as nat, |j: int| 0i32)
            &&& final(config).config_changed
            &&& final(config).sample_rate == old(config).sample_rate
            &&& final(config).sampling_method == old(config).sampling_method
            &&& final(config).clock == old(config).clock
            &&& final(config).digiboost == old(config).digiboost
            &&& final(config).filter_bias_6581 == old(config).filter_bias_6581
        }),
        command == PlayerCommand::SetPosition ==> actions@.len() == 0 && (match param {
            Some(p) => {
                let position = (p & 0xff) as i8 as int;
                let sid_number = p >> 8;
                if 0 <= sid_number < old(config).sid_count {
                    &&& final(config).position_left@ == old(config).position_left@.update(
                        sid_number as int,
                        (if position <= 0 {
                            100
                        } else {
                            100 - position
                        }) as i32,
                    )
                    &&& final(config).position_right@ == old(config).position_right@.update(
                        sid_number as int,
                        (if position >= 0 {
                            100
                        } else {
                            100 + position
                        }) as i32,
                    )
                    &&& *final(config) == (Config {
                        position_left: final(config).position_left,
                        position_right: final(config).position_right,
                        ..*old(config)
                    })
                } else {
                    *final(config) == *old(config)
                }
            },
            None => *final(config) == *old(config),
        }),
        command == PlayerCommand::SetSamplingMethod ==> actions@.len() == 0 && *final(config) == (
        Config {
            sampling_method: if param->Some_0 == 1 {
                SamplingKind::Resample
            } else {
                SamplingKind::Interpolate
            },
            config_changed: true,
            ..*old(config)
        }),
        command == PlayerCommand::EnableDigiboost ==> *final(config) == (Config {
            digiboost: true,
            ..*old(config)
        }) && actions@ == digiboost_actions(
            old(config).chip_model@,
            old(config).sid_count as int,
            true,
        ),
        command == PlayerCommand::DisableDigiboost ==> *final(config) == (Config {
            digiboost: false,
            ..*old(config)
        }) && actions@ == digiboost_actions(
            old(config).chip_model@,
            old(config).sid_count as int,
            false,
        ),
        command == PlayerCommand::SetFilterBias6581 ==> (match param {
            Some(p) => *final(config) == (Config { filter_bias_6581: p, ..*old(config) })
                && actions@ == filter_bias_actions(
                old(config).chip_model@,
                old(config).sid_count as int,
                p,
            ),
            None => *final(config) == *old(config) && actions@.len() == 0,
        }),
        command == PlayerCommand::SetSamplingFrequency ==> (match param {
            Some(p) => *final(config) == *old(config) && actions@ == sampling_freq_actions(
                old(config).sid_count as int,
                p,
            ),
            None => *final(config) == *old(config) && actions@.len() == 0,
        }),
        command == PlayerCommand::Reset ==> *final(config) == (Config {
            config_changed: true,
            ..*old(config)
        }) && actions@.len() == 0,
        command == PlayerCommand::Read ==> *final(config) == *old(config) && actions@.len() == 0,
{
    let mut actions: Vec<SidAction> = Vec::new();
    match command {
        PlayerCommand::SetModel => {
            if let Some(p) = param {
                let model = p & 0xff;
                let sid_number = p >> 8;
                if sid_number >= 0 && sid_number < config.sid_count {
                    let m = if model == 0 {
                        ChipModel::Mos6581
                    } else {
                        ChipModel::Mos8580
                    };
                    config.chip_model.set(sid_number as usize, m);
                }
                config.config_changed = true;
            }
        },
        PlayerCommand::SetClock => {
            let clock = param.unwrap();
            config.clock = if clock == 0 {
                PAL_CLOCK
            } else {
                NTSC_CLOCK
            };
            config.config_changed = true;
        },
        PlayerCommand::SetSidCount => {
            let count = param.unwrap();
            let n = count as usize;
            let model0 = config.chip_model[0];
            let mut chip_model: Vec<ChipModel> = Vec::new();
            let mut position_left: Vec<i32> = Vec::new();
            let mut position_right: Vec<i32> = Vec::new();
            let mut j: usize = 0;
            while j < n
                invariant
                    j <= n,
                    chip_model@.len() == j,
                    position_left@.len() == j,
                    position_right@.len() == j,
                    forall|k: int| 0 <= k < j ==> #[trigger] chip_model@[k] == model0,
                    forall|k: int| 0 <= k < j ==> #[trigger] position_left@[k] == 0i32,
                    forall|k: int| 0 <= k < j ==> #[trigger] position_right@[k] == 0i32,
                decreases n - j,
            {
                chip_model.push(model0);
                position_left.push(0);
                position_right.push(0);
                j = j + 1;
            }
            proof {
                assert(position_left@ =~= Seq::new(n as nat, |k: int| 0i32));
                assert(position_right@ =~= Seq::new(n as nat, |k: int| 0i32));
            }
            config.sid_count = count;
            config.chip_model = chip_model;
            config.position_left = position_left;
            config.position_right = position_right;
            config.config_changed = true;
        },
        PlayerCommand::SetPosition => {
            if let Some(p) = param {
                let position = ((p & 0xff) as i8) as i32;
                let sid_number = p >> 8;
                if sid_number >= 0 && sid_number < config.sid_count {
                    let left = if position <= 0 {
                        100
                    } else {
                        100 - position
                    };
                    let right = if position >= 0 {
                        100
                    } else {
                        100 + position
                    };
                    config.position_left.set(sid_number as usize, left);
                    config.position_right.set(sid_number as usize, right);
                }
            }
        },
        PlayerCommand::SetSamplingMethod => {
            let sampling_method = param.unwrap();
            config.sampling_method = if sampling_method == 1 {
                SamplingKind::Resample
            } else {
                SamplingKind::Interpolate
            };
            config.config_changed = true;
        },
        PlayerCommand::EnableDigiboost => {
            config.digiboost = true;
            actions = digiboost_action_list(&config.chip_model, true);
        },
        PlayerCommand::DisableDigiboost => {
            config.digiboost = false;
            actions = digiboost_action_list(&config.chip_model, false);
        },
        PlayerCommand::SetFilterBias6581 => {
            if let Some(p) = param {
                config.filter_bias_6581 = p;
                actions = filter_bias_action_list(&config.chip_model, p);
            }
        },
        PlayerCommand::SetSamplingFrequency => {
            if let Some(p) = param {
                let n = config.sid_count as usize;
                let mut j: usize = 0;
                while j < n
                    invariant
                        j <= n,
                        actions@ == sampling_freq_actions(j as int, p),
                    decreases n - j,
                {
                    actions.push(SidAction::AdjustSamplingFrequency { sid: j, freq: p });
                    j = j + 1;
                }
            }
        },
        PlayerCommand::Reset => {
            config.config_changed = true;
        },
        PlayerCommand::Read => {},
    }
    actions
}

/// The digi-boost actions for every chip, in chip order.
fn digiboost_action_list(models: &Vec<ChipModel>, enable: bool) -> (actions: Vec<SidAction>)
    ensures
        actions@ == digiboost_actions(models@, models@.len() as int, enable),
{
    let mut actions: Vec<SidAction> = Vec::new();
    let n = models.len();
    let mut j: usize = 0;
    while j < n
        invariant
            j <= n,
            n == models@.len(),
            actions@ == digiboost_actions(models@, j as int, enable),
        decreases n - j,
    {
        if matches!(models[j], ChipModel::Mos8580) {
            actions.push(
                SidAction::SetVoiceMask {
                    sid: j,
                    mask: if enable {
                        0x0f
                    } else {
                        0x07
                    },
                },
            );
            actions.push(
                SidAction::SetInput {
                    sid: j,
                    sample: if enable {
                        i16::MIN
                    } else {
                        0
                    },
                },
            );
        }
        proof {
            assert(actions@ =~= digiboost_actions(models@, j + 1int, enable));
        }
        j = j + 1;
    }
    actions
}

/// The filter-bias actions for every chip, in chip order.
fn filter_bias_action_list(models: &Vec<ChipModel>, bias: i32) -> (actions: Vec<SidAction>)
    ensures
        actions@ == filter_bias_actions(models@, models@.len() as int, bias),
{
    let mut actions: Vec<SidAction> = Vec::new();
    let n = models.len();
    let mut j: usize = 0;
    while j < n
        invariant
            j <= n,
            n == models@.len(),
            actions@ == filter_bias_actions(models@, j as int, bias),
        decreases n - j,
    {
        if matches!(models[j], ChipModel::Mos6581) {
            actions.push(SidAction::AdjustFilterBias { sid: j, bias_hundredths: bias });
        }
        proof {
            assert(actions@ =~= filter_bias_actions(models@, j + 1int, bias));
        }
        j = j + 1;
    }
    actions
}

/// Everything the application needs to build and warm up one chip.
#[derive(Copy, Clone, PartialEq, Eq, Structural, Debug)]
pub struct SidInit {
    pub chip_model: ChipModel,
    pub clock: u32,
    pub sampling_method: SamplingKind,
    pub sample_rate: u32,
    pub enable_filter: bool,
    pub voice_mask: u32,
    pub input_sample: i16,
    /// The bias to apply, in hundredths; only 6581 chips take one.
    pub filter_bias_hundredths: Option<i32>,
    pub warmup_cycles: u32,
}

/// The build plan of the `k`-th chip under a configuration.
pub open spec fn spec_sid_init(c: Config, k: int) -> SidInit {
    SidInit {
        chip_model: c.chip_model@[k],
        clock: c.clock,
        sampling_method: c.sampling_method,
        sample_rate: c.sample_rate,
        enable_filter: true,
        voice_mask: if c.chip_model@[k] == ChipModel::Mos8580 && c.digiboost {
            0x0f
        } else {
            0x07
        },
        input_sample: if c.chip_model@[k] == ChipModel::Mos8580 && c.digiboost {
            i16::MIN
        } else {
            0
        },
        filter_bias_hundredths: if c.chip_model@[k] == ChipModel::Mos6581 {
            Some(c.filter_bias_6581)
        } else {
            None
        },
        warmup_cycles: SID_WARMUP_CYCLES,
    }
}

/// Lay out how every chip must be rebuilt under the current configuration
/// and clear the dirty flag.  An 8580 with digi-boost gets its fourth voice
/// open and a DC input; a 6581 gets the filter bias.
pub fn configure_sids(config: &mut Config) -> (plan: Vec<SidInit>)
    requires
        old(config).wf(),
    ensures
        final(config).wf(),
        *final(config) == (Config { config_changed: false, ..*old(config) }),
        plan@.len() == old(config).sid_count,
        forall|k: int| 0 <= k < plan@.len() ==> #[trigger] plan@[k] == spec_sid_init(
            *old(config),
            k,
        ),
{
    let mut plan: Vec<SidInit> = Vec::new();
    let n = config.sid_count as usize;
    let mut k: usize = 0;
    while k < n
        invariant
            config == old(config),
            config.wf(),
            n == config.sid_count,
            k <= n,
            plan@.len() == k,
            forall|j: int| 0 <= j < k ==> #[trigger] plan@[j] == spec_sid_init(*config, j),
        decreases n - k,
    {
        let model = config.chip_model[k];
        let boosted = matches!(model, ChipModel::Mos8580) && config.digiboost;
        let voice_mask: u32 = if boosted {
            0x0f
        } else {
            0x07
        };
        let input_sample: i16 = if boosted {
            i16::MIN
        } else {
            0
        };
        let filter_bias_hundredths: Option<i32> = if matches!(model, ChipModel::Mos6581) {
            Some(config.filter_bias_6581)
        } else {
            None
        };
        plan.push(
            SidInit {
                chip_model: model,
                clock: config.clock,
                sampling_method: config.sampling_method,
                sample_rate: config.sample_rate,
                enable_filter: true,
                voice_mask,
                input_sample,
                filter_bias_hundredths,
                warmup_cycles: SID_WARMUP_CYCLES,
            },
        );
        k = k + 1;
    }
    config.config_changed = false;
    plan
}

/// Relies on rand::random: a sample of the standard distribution; nothing
/// can be promised of the value.
#[verifier::external_body]
fn random_i32() -> i32 {
    rand::random::<i32>()
}

/// The lowest bit of a sample of the random source.
pub fn random_dither_bit() -> (r: i32)
    ensures
        0 <= r <= 1,
{
    let x = random_i32();
    let r = x & 1;
    proof {
        assert(0 <= (x & 1) <= 1) by (bit_vector);
    }
    r
}

/// Fresh dither bits for `n` stereo frames.
pub fn random_dither_bits(n: usize) -> (bits: Vec<i32>)
    ensures
        bits@.len() == n,
        forall|i: int| 0 <= i < n ==> 0 <= #[trigger] bits@[i] <= 1,
{
    let mut bits: Vec<i32> = Vec::new();
    let mut i: usize = 0;
    while i < n
        invariant
            i <= n,
            bits@.len() == i,
            forall|j: int| 0 <= j < i ==> 0 <= #[trigger] bits@[j] <= 1,
        decreases n - i,
    {
        bits.push(random_dither_bit());
        i = i + 1;
    }
    bits
}

/// A sample clamped to the 16-bit output range.
pub open spec fn clamp16(x: int) -> i16 {
    if x < -32768 {
        -32768i16
    } else if x > 32767 {
        32767i16
    } else {
        x as i16
    }
}

/// Add the dither delta to a mixed sample and clamp it to 16 bits.
pub fn add_dithering_and_limit_output(sample: i32, dithering: i32) -> (r: i16)
    requires
        i32::MIN <= sample + dithering <= i32::MAX,
    ensures
        r == clamp16(sample + dithering),
{
    let s = sample + dithering;
    if s < -32768 {
        -32768
    } else if s > 32767 {
        32767
    } else {
        s as i16
    }
}

/// Division by one hundred that truncates toward zero, as the panning
/// arithmetic does.
pub open spec fn tdiv100(x: int) -> int {
    if x >= 0 {
        x / 100
    } else {
        -((-x) / 100)
    }
}

/// The mono contribution of the first `n` chips to output frame `i`, each
/// scaled by its panning weight.
pub open spec fn mix_sum(bufs: Seq<Seq<i16>>, pos: Seq<i32>, n: int, i: int) -> int
    decreases n,
{
    if n <= 0 {
        0
    } else {
        mix_sum(bufs, pos, n - 1, i) + tdiv100(bufs[n - 1][i] * pos[n - 1])
    }
}

/// The left channel of output frame `i` before dithering: a single chip
/// plays centred, several chips are panned and summed.
pub open spec fn mixed_channel(bufs: Seq<Seq<i16>>, pos: Seq<i32>, sid_count: int, i: int) -> int {
    if sid_count == 1 {
        bufs[0][i] as int
    } else {
        mix_sum(bufs, pos, sid_count, i)
    }
}

/// The panned sum stays well inside `i32`.
pub proof fn lemma_mix_sum_bound(bufs: Seq<Seq<i16>>, pos: Seq<i32>, n: int, i: int)
    requires
        n >= 0,
        forall|j: int| 0 <= j < n ==> -255 <= #[trigger] pos[j] <= 255,
    ensures
        -n * 83558 <= mix_sum(bufs, pos, n, i) <= n * 83558,
    decreases n,
{
    if n > 0 {
        lemma_mix_sum_bound(bufs, pos, n - 1, i);
        let a = bufs[n - 1][i] as int;
        let b = pos[n - 1] as int;
        assert(-32768 * 255 <= a * b <= 32768 * 255) by (nonlinear_arith)
            requires
                -32768 <= a <= 32767,
                -255 <= b <= 255,
        ;
        assert(-83558 <= tdiv100(a * b) <= 83558);
    }
}

/// Mix output frame `i` from the per-chip sample buffers.
pub fn mix_frame(
    bufs: &Vec<Vec<i16>>,
    posl: &Vec<i32>,
    posr: &Vec<i32>,
    sid_count: usize,
    i: usize,
) -> (lr: (i32, i32))
    requires
        1 <= sid_count <= 8,
        bufs@.len() >= sid_count,
        posl@.len() >= sid_count,
        posr@.len() >= sid_count,
        forall|j: int| 0 <= j < sid_count ==> i < #[trigger] bufs@[j]@.len(),
        forall|j: int| 0 <= j < sid_count ==> -255 <= #[trigger] posl@[j] <= 255,
        forall|j: int| 0 <= j < sid_count ==> -255 <= #[trigger] posr@[j] <= 255,
    ensures
        lr.0 == mixed_channel(bufs@.map(|k: int, b: Vec<i16>| b@), posl@, sid_count as int, i as int),
        lr.1 == mixed_channel(bufs@.map(|k: int, b: Vec<i16>| b@), posr@, sid_count as int, i as int),
        -700000 <= lr.0 <= 700000,
        -700000 <= lr.1 <= 700000,
{
    let ghost dbufs = bufs@.map(|k: int, b: Vec<i16>| b@);
    if sid_count == 1 {
        let sample = bufs[0][i] as i32;
        (sample, sample)
    } else {
        let mut left: i32 = 0;
        let mut right: i32 = 0;
        let mut j: usize = 0;
        proof {
            lemma_mix_sum_bound(dbufs, posl@, 0, i as int);
        }
        while j < sid_count
            invariant
                1 <= sid_count <= 8,
                j <= sid_count,
                bufs@.len() >= sid_count,
                posl@.len() >= sid_count,
                posr@.len() >= sid_count,
                dbufs == bufs@.map(|k: int, b: Vec<i16>| b@),
                forall|q: int| 0 <= q < sid_count ==> i < #[trigger] bufs@[q]@.len(),
                forall|q: int| 0 <= q < sid_count ==> -255 <= #[trigger] posl@[q] <= 255,
                forall|q: int| 0 <= q < sid_count ==> -255 <= #[trigger] posr@[q] <= 255,
                left == mix_sum(dbufs, posl@, j as int, i as int),
                right == mix_sum(dbufs, posr@, j as int, i as int),
                -700000 <= left <= 700000,
                -700000 <= right <= 700000,
            decreases sid_count - j,
        {
            let sample = bufs[j][i] as i32;
            let panning_left = posl[j];
            let panning_right = posr[j];
            proof {
                assert(-32768 * 255 <= sample * panning_left <= 32768 * 255) by (nonlinear_arith)
                    requires
                        -32768 <= sample <= 32767 && -255 <= panning_left <= 255,
                ;
                assert(-32768 * 255 <= sample * panning_right <= 32768 * 255) by (nonlinear_arith)
                    requires
                        -32768 <= sample <= 32767 && -255 <= panning_right <= 255,
                ;
                lemma_mix_sum_bound(dbufs, posl@, j as int, i as int);
                lemma_mix_sum_bound(dbufs, posr@, j as int, i as int);
            }
            left = left + sample * panning_left / 100;
            right = right + sample * panning_right / 100;
            j = j + 1;
            proof {
                lemma_mix_sum_bound(dbufs, posl@, j as int, i as int);
                lemma_mix_sum_bound(dbufs, posr@, j as int, i as int);
            }
        }
        (left, right)
    }
}

/// Triangular-dither state: the previous frame's bit; the delta fed into a
/// frame is the new bit minus it.
pub struct Dither {
    pub prev: i32,
}

/// The dither bit in force before frame `i`: the caller's initial state for
/// the first frame, afterwards the previous frame's bit.
pub open spec fn dither_prev(prev0: int, bits: Seq<i32>, i: int) -> int {
    if i == 0 {
        prev0
    } else {
        bits[i - 1] as int
    }
}

/// Mix `length` stereo frames from the per-chip buffers, dither each with
/// the given bit sequence and clamp to 16 bits.  Output is interleaved
/// left, right.
pub fn mix_to_stereo(
    bufs: &Vec<Vec<i16>>,
    posl: &Vec<i32>,
    posr: &Vec<i32>,
    sid_count: usize,
    length: usize,
    bits: &Vec<i32>,
    dither: &mut Dither,
) -> (out: Vec<i16>)
    requires
        1 <= sid_count <= 8,
        bufs@.len() >= sid_count,
        posl@.len() >= sid_count,
        posr@.len() >= sid_count,
        forall|j: int| 0 <= j < sid_count ==> length <= #[trigger] bufs@[j]@.len(),
        forall|j: int| 0 <= j < sid_count ==> -255 <= #[trigger] posl@[j] <= 255,
        forall|j: int| 0 <= j < sid_count ==> -255 <= #[trigger] posr@[j] <= 255,
        bits@.len() == length,
        forall|i: int| 0 <= i < length ==> 0 <= #[trigger] bits@[i] <= 1,
        0 <= old(dither).prev <= 1,
    ensures
        out@.len() == 2 * length,
        forall|i: int|
            0 <= i < length ==> #[trigger] out@[2 * i] == clamp16(
                mixed_channel(bufs@.map(|k: int, b: Vec<i16>| b@), posl@, sid_count as int, i) + (
                bits@[i] - dither_prev(old(dither).prev as int, bits@, i)),
            ),
        forall|i: int|
            0 <= i < length ==> #[trigger] out@[2 * i + 1] == clamp16(
                mixed_channel(bufs@.map(|k: int, b: Vec<i16>| b@), posr@, sid_count as int, i) + (
                bits@[i] - dither_prev(old(dither).prev as int, bits@, i)),
            ),
        final(dither).prev == (if length > 0 {
            bits@[length - 1] as int
        } else {
            old(dither).prev as int
        }),
        0 <= final(dither).prev <= 1,
{
    let ghost prev0 = dither.prev as int;
    let mut out: Vec<i16> = Vec::new();
    let mut i: usize = 0;
    while i < length
        invariant
            1 <= sid_count <= 8,
            i <= length,
            bufs@.len() >= sid_count,
            posl@.len() >= sid_count,
            posr@.len() >= sid_count,
            forall|j: int| 0 <= j < sid_count ==> length <= #[trigger] bufs@[j]@.len(),
            forall|j: int| 0 <= j < sid_count ==> -255 <= #[trigger] posl@[j] <= 255,
            forall|j: int| 0 <= j < sid_count ==> -255 <= #[trigger] posr@[j] <= 255,
            bits@.len() == length,
            forall|q: int| 0 <= q < length ==> 0 <= #[trigger] bits@[q] <= 1,
            out@.len() == 2 * i,
            dither.prev as int == dither_prev(prev0, bits@, i as int),
            0 <= dither.prev <= 1,
            forall|q: int|
                0 <= q < i ==> #[trigger] out@[2 * q] == clamp16(
                    mixed_channel(
                        bufs@.map(|k: int, b: Vec<i16>| b@),
                        posl@,
                        sid_count as int,
                        q,
                    ) + (bits@[q] - dither_prev(prev0, bits@, q)),
                ),
            forall|q: int|
                0 <= q < i ==> #[trigger] out@[2 * q + 1] == clamp16(
                    mixed_channel(
                        bufs@.map(|k: int, b: Vec<i16>| b@),
                        posr@,
                        sid_count as int,
                        q,
                    ) + (bits@[q] - dither_prev(prev0, bits@, q)),
                ),
        decreases length - i,
    {
        let (left, right) = mix_frame(bufs, posl, posr, sid_count, i);
        let tmp_value = dither.prev;
        dither.prev = bits[i];
        let dithering = dither.prev - tmp_value;
        out.push(add_dithering_and_limit_output(left, dithering));
        out.push(add_dithering_and_limit_output(right, dithering));
        i = i + 1;
    }
    out
}

/// The chip a write addresses: the top three register bits, clamped to the
/// chips that exist.
pub fn target_sid(reg: u8, sid_count: i32) -> (r: usize)
    requires
        1 <= sid_count <= 8,
    ensures
        r == (if ((reg >> 5) as int) < sid_count - 1 {
            (reg >> 5) as int
        } else {
            sid_count - 1
        }),
        r < sid_count,
{
    let top = (reg >> 5) as i32;
    proof {
        assert(reg >> 5 <= 7) by (bit_vector);
    }
    if top < sid_count - 1 {
        top as usize
    } else {
        (sid_count - 1) as usize
    }
}

/// The register offset a write addresses within its chip.
pub fn register_offset(reg: u8) -> (r: u8)
    ensures
        r == reg & 0x1f,
        r < 32,
{
    proof {
        assert(reg & 0x1f < 32) by (bit_vector);
    }
    reg & 0x1f
}

/// Whether the worker has banked enough output to yield for a moment.
pub fn has_enough_data(cycles_in_buffer: u32, sound_buffer_len: usize) -> (r: bool)
    ensures
        r == (cycles_in_buffer > CYCLES_IN_BUFFER_THRESHOLD && sound_buffer_len
            > SOUND_BUFFER_SIZE_THRESHOLD),
{
    cycles_in_buffer > CYCLES_IN_BUFFER_THRESHOLD && sound_buffer_len > SOUND_BUFFER_SIZE_THRESHOLD
}

/// Whether an eager generation pass should run at all: there is something
/// queued and the PCM ring is not already comfortably full.
pub fn should_generate(queue_len: usize, sound_buffer_len: usize) -> (r: bool)
    ensures
        r == (queue_len > 0 && sound_buffer_len < AUDIO_STREAM_LIMIT),
{
    queue_len > 0 && sound_buffer_len < AUDIO_STREAM_LIMIT
}

/// Whether a generation pass must refuse to run: the PCM ring is over its
/// high-water mark.
pub fn stream_over_max(sound_buffer_len: usize) -> (r: bool)
    ensures
        r == (sound_buffer_len > AUDIO_STREAM_MAX_LIMIT),
{
    sound_buffer_len > AUDIO_STREAM_MAX_LIMIT
}

/// What the worker's idle bookkeeping does this tick.
#[derive(Copy, Clone, PartialEq, Eq, Structural, Debug)]
pub enum PauseDecision {
    /// Data is flowing: refresh the activity clock and resume the stream.
    Activity,
    /// Idle too long: pause the stream.
    Pause,
    /// Nothing changes.
    Keep,
}

/// Decide the idle-pause bookkeeping: a non-empty, started queue counts as
/// activity; otherwise a stream still playing is paused once the queue has
/// been silent longer than the idle limit.
pub fn pause_decision(
    queue_empty: bool,
    queue_started: bool,
    should_pause: bool,
    idle_secs: u64,
) -> (r: PauseDecision)
    ensures
        r == (if !queue_empty && queue_started {
            PauseDecision::Activity
        } else if !should_pause && idle_secs > PAUSE_AUDIO_IDLE_TIME_IN_SEC {
            PauseDecision::Pause
        } else {
            PauseDecision::Keep
        }),
{
    if !queue_empty && queue_started {
        PauseDecision::Activity
    } else if !should_pause && idle_secs > PAUSE_AUDIO_IDLE_TIME_IN_SEC {
        PauseDecision::Pause
    } else {
        PauseDecision::Keep
    }
}

/// How one generation pass begins.
pub enum PassSetup {
    /// The PCM ring is over its high-water mark: no pass runs.
    Skip,
    /// The configuration changed: rebuild every chip to this plan first.
    Rebuild(Vec<SidInit>),
    /// The chips stand as they are.
    Keep,
}

/// Law-bearing prologue of one generation pass: no pass runs while the PCM
/// ring is over its high-water mark, and a pass that finds the
/// configuration dirty rebuilds every chip to the new configuration before
/// any sample is produced, clearing the dirty flag.
pub fn begin_generation_pass(config: &mut Config, sound_buffer_len: usize) -> (r: PassSetup)
    requires
        old(config).wf(),
    ensures
        final(config).wf(),
        sound_buffer_len > AUDIO_STREAM_MAX_LIMIT ==> (r matches PassSetup::Skip) && *final(config)
            == *old(config),
        (sound_buffer_len <= AUDIO_STREAM_MAX_LIMIT && old(config).config_changed) ==> (
        r matches PassSetup::Rebuild(plan) && plan@.len() == old(config).sid_count && (forall|
            k: int,
        |
            0 <= k < plan@.len() ==> #[trigger] plan@[k] == spec_sid_init(*old(config), k))
            && *final(config) == (Config { config_changed: false, ..*old(config) })),
        (sound_buffer_len <= AUDIO_STREAM_MAX_LIMIT && !old(config).config_changed) ==> (
        r matches PassSetup::Keep) && *final(config) == *old(config),
{
    if stream_over_max(sound_buffer_len) {
        PassSetup::Skip
    } else if config.config_changed {
        let plan = configure_sids(config);
        PassSetup::Rebuild(plan)
    } else {
        PassSetup::Keep
    }
}

} // verus!
