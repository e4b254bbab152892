use sid_device::player::PlayerCommand;
use sid_device::render::{add_dithering_and_limit_output, apply_player_command,
    begin_generation_pass, configure_sids, has_enough_data, mix_frame, mix_to_stereo,
    pause_decision, random_dither_bits, register_offset, should_generate, stream_over_max,
    target_sid, ChipModel, Config, Dither, PassSetup, PauseDecision, SamplingKind, SidAction,
    AUDIO_STREAM_LIMIT, AUDIO_STREAM_MAX_LIMIT, NTSC_CLOCK, PAL_CLOCK};

fn three_chips() -> Config {
    let mut c = Config::default_config(48_000);
    let actions = apply_player_command(&mut c, PlayerCommand::SetSidCount, Some(3));
    assert!(actions.is_empty());
    c
}

#[test]
fn default_config_values() {
    let c = Config::default_config(44_100);
    assert_eq!(c.sample_rate, 44_100);
    assert_eq!(c.sampling_method, SamplingKind::Resample);
    assert_eq!(c.clock, PAL_CLOCK);
    assert_eq!(c.sid_count, 1);
    assert_eq!(c.chip_model, vec![ChipModel::Mos6581]);
    assert_eq!(c.position_left, vec![0]);
    assert_eq!(c.position_right, vec![0]);
    assert!(!c.digiboost);
    assert_eq!(c.filter_bias_6581, 24);
    assert!(!c.config_changed);
}

#[test]
fn set_clock_picks_the_standard() {
    let mut c = Config::default_config(48_000);
    apply_player_command(&mut c, PlayerCommand::SetClock, Some(0));
    assert_eq!(c.clock, PAL_CLOCK);
    assert!(c.config_changed);
    apply_player_command(&mut c, PlayerCommand::SetClock, Some(1));
    assert_eq!(c.clock, NTSC_CLOCK);
}

#[test]
fn set_sid_count_rebuilds_the_arrays() {
    let c = three_chips();
    assert_eq!(c.sid_count, 3);
    assert_eq!(c.chip_model, vec![ChipModel::Mos6581; 3]);
    assert_eq!(c.position_left, vec![0, 0, 0]);
    assert_eq!(c.position_right, vec![0, 0, 0]);
    assert!(c.config_changed);
}

#[test]
fn set_model_targets_one_chip() {
    let mut c = three_chips();
    apply_player_command(&mut c, PlayerCommand::SetModel, Some((2 << 8) | 1));
    assert_eq!(
        c.chip_model,
        vec![ChipModel::Mos6581, ChipModel::Mos6581, ChipModel::Mos8580]
    );
    // an index past the last chip changes nothing but still marks the config
    apply_player_command(&mut c, PlayerCommand::SetModel, Some((7 << 8) | 1));
    assert_eq!(
        c.chip_model,
        vec![ChipModel::Mos6581, ChipModel::Mos6581, ChipModel::Mos8580]
    );
    assert!(c.config_changed);
}

#[test]
fn set_position_splits_the_panning() {
    let mut c = three_chips();
    // position 0: both channels full
    apply_player_command(&mut c, PlayerCommand::SetPosition, Some(0));
    assert_eq!(c.position_left[0], 100);
    assert_eq!(c.position_right[0], 100);
    // hard left (-100 as a byte is 0x9c)
    apply_player_command(&mut c, PlayerCommand::SetPosition, Some((1 << 8) | 0x9c));
    assert_eq!(c.position_left[1], 100);
    assert_eq!(c.position_right[1], 0);
    // hard right
    apply_player_command(&mut c, PlayerCommand::SetPosition, Some((2 << 8) | 100));
    assert_eq!(c.position_left[2], 0);
    assert_eq!(c.position_right[2], 100);
}

#[test]
fn digiboost_actions_touch_only_the_8580s() {
    let mut c = three_chips();
    apply_player_command(&mut c, PlayerCommand::SetModel, Some((1 << 8) | 1));
    let actions = apply_player_command(&mut c, PlayerCommand::EnableDigiboost, None);
    assert!(c.digiboost);
    assert_eq!(
        actions,
        vec![
            SidAction::SetVoiceMask { sid: 1, mask: 0x0f },
            SidAction::SetInput { sid: 1, sample: i16::MIN },
        ]
    );
    let actions = apply_player_command(&mut c, PlayerCommand::DisableDigiboost, None);
    assert!(!c.digiboost);
    assert_eq!(
        actions,
        vec![
            SidAction::SetVoiceMask { sid: 1, mask: 0x07 },
            SidAction::SetInput { sid: 1, sample: 0 },
        ]
    );
}

#[test]
fn filter_bias_reaches_only_the_6581s() {
    let mut c = three_chips();
    apply_player_command(&mut c, PlayerCommand::SetModel, Some(1));
    let actions = apply_player_command(&mut c, PlayerCommand::SetFilterBias6581, Some(30));
    assert_eq!(c.filter_bias_6581, 30);
    assert_eq!(
        actions,
        vec![
            SidAction::AdjustFilterBias { sid: 1, bias_hundredths: 30 },
            SidAction::AdjustFilterBias { sid: 2, bias_hundredths: 30 },
        ]
    );
}

#[test]
fn sampling_frequency_reaches_every_chip() {
    let mut c = three_chips();
    let actions =
        apply_player_command(&mut c, PlayerCommand::SetSamplingFrequency, Some(44_100));
    assert_eq!(
        actions,
        vec![
            SidAction::AdjustSamplingFrequency { sid: 0, freq: 44_100 },
            SidAction::AdjustSamplingFrequency { sid: 1, freq: 44_100 },
            SidAction::AdjustSamplingFrequency { sid: 2, freq: 44_100 },
        ]
    );
}

#[test]
fn configure_sids_lays_out_the_plan() {
    let mut c = three_chips();
    apply_player_command(&mut c, PlayerCommand::SetModel, Some((1 << 8) | 1));
    apply_player_command(&mut c, PlayerCommand::EnableDigiboost, None);
    let plan = configure_sids(&mut c);
    assert!(!c.config_changed);
    assert_eq!(plan.len(), 3);
    // 6581: filter bias, closed fourth voice
    assert_eq!(plan[0].chip_model, ChipModel::Mos6581);
    assert_eq!(plan[0].voice_mask, 0x07);
    assert_eq!(plan[0].input_sample, 0);
    assert_eq!(plan[0].filter_bias_hundredths, Some(24));
    assert_eq!(plan[0].warmup_cycles, 0xffff);
    assert!(plan[0].enable_filter);
    // boosted 8580: open fourth voice, DC input, no bias
    assert_eq!(plan[1].chip_model, ChipModel::Mos8580);
    assert_eq!(plan[1].voice_mask, 0x0f);
    assert_eq!(plan[1].input_sample, i16::MIN);
    assert_eq!(plan[1].filter_bias_hundredths, None);
}

#[test]
fn generation_pass_rebuilds_before_rendering() {
    let mut c = three_chips();
    assert!(c.config_changed);
    match begin_generation_pass(&mut c, 0) {
        PassSetup::Rebuild(plan) => assert_eq!(plan.len(), 3),
        _ => panic!("a dirty configuration must be rebuilt"),
    }
    assert!(!c.config_changed);
    match begin_generation_pass(&mut c, 0) {
        PassSetup::Keep => {}
        _ => panic!("a clean configuration keeps its chips"),
    }
    match begin_generation_pass(&mut c, AUDIO_STREAM_MAX_LIMIT + 1) {
        PassSetup::Skip => {}
        _ => panic!("an over-full PCM ring skips the pass"),
    }
}

#[test]
fn dithering_clamps_to_sixteen_bits() {
    assert_eq!(add_dithering_and_limit_output(40_000, 1), 32767);
    assert_eq!(add_dithering_and_limit_output(-40_000, 0), -32768);
    assert_eq!(add_dithering_and_limit_output(100, -1), 99);
    assert_eq!(add_dithering_and_limit_output(32767, 1), 32767);
    assert_eq!(add_dithering_and_limit_output(-32768, -1), -32768);
}

#[test]
fn mix_frame_single_chip_plays_centred() {
    let bufs = vec![vec![-1234i16, 77]];
    let posl = vec![0];
    let posr = vec![0];
    assert_eq!(mix_frame(&bufs, &posl, &posr, 1, 0), (-1234, -1234));
    assert_eq!(mix_frame(&bufs, &posl, &posr, 1, 1), (77, 77));
}

#[test]
fn mix_frame_pans_and_truncates_toward_zero() {
    let bufs = vec![vec![99i16], vec![-99i16]];
    let posl = vec![50, 100];
    let posr = vec![100, 50];
    // 99*50/100 truncates to 49; -99*100/100 is -99: left = 49 - 99
    let (l, r) = mix_frame(&bufs, &posl, &posr, 2, 0);
    assert_eq!(l, 49 - 99);
    // 99*100/100 is 99; -99*50/100 truncates to -49: right = 99 - 49
    assert_eq!(r, 99 - 49);
}

#[test]
fn mix_to_stereo_applies_triangular_dither() {
    let bufs = vec![vec![1000i16, 2000, 3000]];
    let posl = vec![0];
    let posr = vec![0];
    let bits = vec![1, 1, 0];
    let mut dither = Dither { prev: 0 };
    let out = mix_to_stereo(&bufs, &posl, &posr, 1, 3, &bits, &mut dither);
    // deltas: 1-0, 1-1, 0-1
    assert_eq!(out, vec![1001, 1001, 2000, 2000, 2999, 2999]);
    assert_eq!(dither.prev, 0);
}

#[test]
fn random_dither_bits_are_bits() {
    let bits = random_dither_bits(256);
    assert_eq!(bits.len(), 256);
    for b in bits {
        assert!(b == 0 || b == 1);
    }
}

#[test]
fn target_sid_clamps_to_existing_chips() {
    assert_eq!(target_sid(0x18, 1), 0);
    assert_eq!(target_sid(0x38, 2), 1);
    assert_eq!(target_sid(0xf8, 2), 1);
    assert_eq!(target_sid(0xf8, 8), 7);
    assert_eq!(register_offset(0x7b), 0x1b);
    assert_eq!(register_offset(0x18), 0x18);
}

#[test]
fn worker_pacing_decisions() {
    assert!(has_enough_data(10_001, 5_001));
    assert!(!has_enough_data(10_000, 5_001));
    assert!(!has_enough_data(10_001, 5_000));
    assert!(should_generate(1, AUDIO_STREAM_LIMIT - 1));
    assert!(!should_generate(0, 0));
    assert!(!should_generate(1, AUDIO_STREAM_LIMIT));
    assert!(!stream_over_max(AUDIO_STREAM_MAX_LIMIT));
    assert!(stream_over_max(AUDIO_STREAM_MAX_LIMIT + 1));
}

#[test]
fn pause_decisions() {
    assert_eq!(pause_decision(false, true, false, 0), PauseDecision::Activity);
    assert_eq!(pause_decision(true, true, false, 3), PauseDecision::Pause);
    assert_eq!(pause_decision(false, false, false, 3), PauseDecision::Pause);
    assert_eq!(pause_decision(true, true, false, 2), PauseDecision::Keep);
    assert_eq!(pause_decision(true, true, true, 10), PauseDecision::Keep);
}
