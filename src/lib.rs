//! Runtime model of a gain plugin: its identity, configuration, lifecycle,
//! parameter table, audio port layout and sample processing, all verified.
mod config;
mod dist;
mod lifecycle;
mod params;
mod plugin;
mod ports;
mod process;

pub use config::{
    comma_pieces, split_on_comma, string_views, valid_name, valid_param_names, InitError,
    PluginConfig,
};
pub use dist::{artifact_name, dist_dir, join_path, joined_path};
pub use lifecycle::{
    check_audio_config, lemma_activation_boundary, next_state, supported_config, transition,
    ActivationError, AudioConfig, LifecycleError, LifecycleEvent, LifecycleState,
};
pub use params::{
    apply_event, apply_events, last_write, lemma_last_write_wins, value_after, ParamEvent,
    ParamValues,
};
pub use plugin::{
    lemma_table_follows_list, GainPlugin, GainPluginMainThread, GainPluginShared,
    HostCapabilities, ParamInfo, PluginIdentity, PARAM_DEFAULT, PARAM_MAX, PARAM_MIN,
};
pub use ports::{port_count, port_info, AudioPortInfo, PortLayout};
pub use process::{
    block_status, process_channel, process_in_place, process_separate, ChannelPair, ProcessStatus,
    GAIN,
};
