//! Stored settings and the fan-out of settings changes to running sessions.
//!
//! Loading, saving and broadcasting live outside; this module fixes what the
//! settings mean: the defaults, how a loaded file is normalised, and what a
//! broadcast settings command does to a session's player.

use vstd::prelude::*;

use crate::player::{Player, PlayerCommand};
use crate::render::DEFAULT_FILTER_BIAS_6581;

verus! {

/// Stored user settings, as the configuration file carries them.
#[derive(Copy, Clone, PartialEq, Eq, Structural, Debug)]
pub struct Config {
    pub digiboost_enabled: bool,
    pub allow_external_connections: bool,
    pub audio_device_number: Option<i32>,
    pub filter_bias_6581: Option<i32>,
    pub default_filter_bias_6581: i32,
    pub launch_at_start_enabled: bool,
}

impl Config {
    /// Assemble a settings record from its parts.
    pub fn new(
        digiboost_enabled: bool,
        launch_at_start_enabled: bool,
        allow_external_connections: bool,
        audio_device_number: Option<i32>,
        filter_bias_6581: Option<i32>,
        default_filter_bias_6581: i32,
    ) -> (r: Config)
        ensures
            r == (Config {
                digiboost_enabled,
                allow_external_connections,
                audio_device_number,
                filter_bias_6581,
                default_filter_bias_6581,
                launch_at_start_enabled,
            }),
    {
        Config {
            digiboost_enabled,
            allow_external_connections,
            audio_device_number,
            filter_bias_6581,
            default_filter_bias_6581,
            launch_at_start_enabled,
        }
    }
}

/// The settings used when no configuration file exists: digi-boost off,
/// external connections allowed, default audio device, default filter bias.
pub fn get_default_config(auto_launch_enabled: bool) -> (r: Config)
    ensures
        r == (Config {
            digiboost_enabled: false,
            allow_external_connections: true,
            audio_device_number: None::<i32>,
            filter_bias_6581: Some(DEFAULT_FILTER_BIAS_6581),
            default_filter_bias_6581: DEFAULT_FILTER_BIAS_6581,
            launch_at_start_enabled: auto_launch_enabled,
        }),
{
    Config::new(
        false,
        auto_launch_enabled,
        true,
        None,
        Some(DEFAULT_FILTER_BIAS_6581),
        DEFAULT_FILTER_BIAS_6581,
    )
}

/// Normalise a settings record read from disk: a missing filter bias falls
/// back to the default, the stored default is refreshed, and the
/// launch-at-start flag is replaced by what the system reports.
pub fn normalize_loaded_config(config: Config, auto_launch_enabled: bool) -> (r: Config)
    ensures
        r == (Config {
            filter_bias_6581: if config.filter_bias_6581 is None {
                Some(DEFAULT_FILTER_BIAS_6581)
            } else {
                config.filter_bias_6581
            },
            default_filter_bias_6581: DEFAULT_FILTER_BIAS_6581,
            launch_at_start_enabled: auto_launch_enabled,
            ..config
        }),
{
    let mut r = config;
    if r.filter_bias_6581.is_none() {
        r.filter_bias_6581 = Some(DEFAULT_FILTER_BIAS_6581);
    }
    r.default_filter_bias_6581 = DEFAULT_FILTER_BIAS_6581;
    r.launch_at_start_enabled = auto_launch_enabled;
    r
}

/// The audio device a one-based picker index selects: zero picks the
/// system default.
pub fn audio_device_number_from_index(device_index: i32) -> (r: Option<i32>)
    ensures
        device_index < 1 ==> r is None,
        device_index >= 1 ==> r == Some((device_index - 1) as i32),
{
    if device_index < 1 {
        None
    } else {
        Some(device_index - 1)
    }
}

/// A settings change broadcast to every running session.
#[derive(Copy, Clone, PartialEq, Eq, Structural, Debug)]
pub enum SettingsCommand {
    SetAudioDevice,
    EnableDigiboost,
    DisableDigiboost,
    FilterBias6581,
}

/// The response a settings panel reports: the audio output devices by name
/// and which of them is the default.
pub struct DevicesResponse {
    pub devices: Vec<String>,
    pub default_device: i32,
}

/// Apply one broadcast settings command to a session's player.  The first
/// part of the result says whether the caller must reopen the audio device
/// (with `param` as its number); the rest are commands for the worker.
pub fn apply_settings_command(
    player: &mut Player,
    command: SettingsCommand,
    param: Option<i32>,
) -> (r: (bool, Vec<(PlayerCommand, Option<i32>)>))
    requires
        old(player).wf(),
    ensures
        final(player).wf(),
        command == SettingsCommand::SetAudioDevice ==> final(player)@ == old(player)@.cleared()
            && r.0 && r.1@.len() == 0,
        command == SettingsCommand::EnableDigiboost ==> final(player)@ == old(player)@ && !r.0
            && r.1@ == seq![(PlayerCommand::EnableDigiboost, None::<i32>)],
        command == SettingsCommand::DisableDigiboost ==> final(player)@ == old(player)@ && !r.0
            && r.1@ == seq![(PlayerCommand::DisableDigiboost, None::<i32>)],
        command == SettingsCommand::FilterBias6581 ==> final(player)@ == old(player)@ && !r.0
            && r.1@ == seq![(PlayerCommand::SetFilterBias6581, param)],
{
    let mut commands: Vec<(PlayerCommand, Option<i32>)> = Vec::new();
    match command {
        SettingsCommand::SetAudioDevice => {
            player.set_audio_device();
            (true, commands)
        },
        SettingsCommand::EnableDigiboost => {
            let cmd = player.enable_digiboost(true);
            commands.push(cmd);
            proof {
                assert(commands@ =~= seq![(PlayerCommand::EnableDigiboost, None::<i32>)]);
            }
            (false, commands)
        },
        SettingsCommand::DisableDigiboost => {
            let cmd = player.enable_digiboost(false);
            commands.push(cmd);
            proof {
                assert(commands@ =~= seq![(PlayerCommand::DisableDigiboost, None::<i32>)]);
            }
            (false, commands)
        },
        SettingsCommand::FilterBias6581 => {
            let cmd = player.set_filter_bias_6581(param);
            commands.push(cmd);
            proof {
                assert(commands@ =~= seq![(PlayerCommand::SetFilterBias6581, param)]);
            }
            (false, commands)
        },
    }
}

} // verus!
