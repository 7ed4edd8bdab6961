use split_plug::{
    artifact_name, block_status, check_audio_config, dist_dir, next_state, port_count, port_info,
    process_channel, process_in_place, process_separate, split_on_comma, ActivationError,
    AudioConfig, ChannelPair, GainPlugin, GainPluginMainThread, GainPluginShared, HostCapabilities, InitError, LifecycleError,
    LifecycleEvent, LifecycleState, ParamEvent, ParamValues, PluginConfig, PortLayout,
    ProcessStatus, GAIN, PARAM_DEFAULT, PARAM_MAX, PARAM_MIN,
};

fn caps(log: bool, params: bool) -> HostCapabilities {
    HostCapabilities { log, params }
}

fn main_thread(list: &str, params_cap: bool) -> GainPluginMainThread<f64> {
    let shared = GainPluginShared::new(true).unwrap();
    let config = PluginConfig::new("Perf name", list).unwrap();
    GainPluginMainThread::new(&shared, caps(false, params_cap), config, PARAM_DEFAULT as f64)
}

fn set(param_id: u32, value: f64) -> ParamEvent<f64> {
    ParamEvent::SetValue { param_id, value }
}

fn audio(min_frames: u32, max_frames: u32) -> AudioConfig {
    AudioConfig { min_frames, max_frames }
}

#[test]
fn split_keeps_empty_pieces() {
    assert_eq!(split_on_comma("a,b"), vec!["a".to_string(), "b".to_string()]);
    assert_eq!(split_on_comma(""), vec!["".to_string()]);
    assert_eq!(split_on_comma(",x,"), vec!["".to_string(), "x".to_string(), "".to_string()]);
}

#[test]
fn config_reads_names_in_order() {
    let c = PluginConfig::new("Perf name", "param7781,param2,param7").unwrap();
    assert_eq!(c.name, "Perf name");
    assert_eq!(c.param_names, vec!["param7781", "param2", "param7"]);
    assert_eq!(c.param_count(), 3);
}

#[test]
fn config_errors() {
    assert!(matches!(PluginConfig::new("", "a"), Err(InitError::BadName)));
    assert!(matches!(PluginConfig::new("a\0b", "a"), Err(InitError::BadName)));
    assert!(matches!(PluginConfig::new("n", ""), Err(InitError::EmptyParamName)));
    assert!(matches!(PluginConfig::new("n", "a,,b"), Err(InitError::EmptyParamName)));
    assert!(matches!(PluginConfig::new("n", "a,"), Err(InitError::EmptyParamName)));
    assert!(matches!(PluginConfig::new("", ","), Err(InitError::BadName)));
}

#[test]
fn shared_needs_usable_host() {
    assert!(GainPluginShared::new(true).is_ok());
    assert!(matches!(GainPluginShared::new(false), Err(InitError::HostUnusable)));
}

#[test]
fn descriptor_identity() {
    let d = GainPlugin::<f64>::get_descriptor("Perf name").unwrap();
    assert_eq!(d.id, "KEIK");
    assert_eq!(d.name, "Perf name");
    assert_eq!(d.features, vec!["utility".to_string()]);
    assert_eq!(GainPlugin::<f64>::get_descriptor("").unwrap().name, "");
    assert!(matches!(GainPlugin::<f64>::get_descriptor("x\0"), Err(InitError::BadName)));
}

#[test]
fn count_and_info_follow_the_list() {
    let m = main_thread("gain,tone,mix", false);
    assert_eq!(m.count(), 3);
    let info = m.get_info(0).unwrap();
    assert_eq!(info.name, "gain");
    assert_eq!(info.id, 0);
    assert_eq!(info.module, "ultra/hello");
    assert_eq!(info.default_value, PARAM_DEFAULT);
    assert_eq!(info.min_value, PARAM_MIN);
    assert_eq!(info.max_value, PARAM_MAX);
    assert_eq!(info.flags, 32);
    for index in 0..m.count() {
        assert_eq!(m.get_info(index).unwrap().id, index);
        assert_eq!(m.get_info(index).unwrap().id, m.get_info(index).unwrap().id);
    }
    assert_eq!(m.get_info(2).unwrap().name, "mix");
    assert!(m.get_info(3).is_none());
}

#[test]
fn get_value_of_unknown_id_is_none() {
    let m = main_thread("gain,tone,mix", false);
    assert_eq!(m.get_value(0, None), Some(0.0));
    assert_eq!(m.get_value(3, None), None);
    assert_eq!(m.get_value(u32::MAX, None), None);
}

#[test]
fn flush_last_write_wins() {
    let mut m = main_thread("gain,tone,mix", false);
    m.flush(&[set(2, 5.0), set(2, 7.0)]);
    assert_eq!(m.get_value(2, None), Some(7.0));
    assert_eq!(m.get_value(0, None), Some(0.0));
}

#[test]
fn flush_ignores_unknown_ids_and_other_events() {
    let mut m = main_thread("gain,tone", false);
    m.flush(&[set(0, 3.0), ParamEvent::Other, set(9, 1.0), set(1, 4.0), set(0, 2.5)]);
    assert_eq!(m.get_value(0, None), Some(2.5));
    assert_eq!(m.get_value(1, None), Some(4.0));
    assert_eq!(m.get_value(9, None), None);
    m.flush(&[]);
    assert_eq!(m.get_value(0, None), Some(2.5));
}

#[test]
fn param_values_basics() {
    let mut v = ParamValues::new(2, 1.5f64);
    assert_eq!(v.count(), 2);
    assert_eq!(v.get(1), Some(1.5));
    v.apply(&set(1, 9.0));
    assert_eq!(v.get(1), Some(9.0));
    let w = v.duplicate();
    assert_eq!(w.get(0), Some(1.5));
    assert_eq!(w.get(1), Some(9.0));
    assert_eq!(ParamValues::new(0, 0.0f64).get(0), None);
}

#[test]
fn activation_and_deactivation_carry_values() {
    let mut m = main_thread("gain,tone,mix", false);
    m.flush(&[set(1, 3.0)]);
    let mut p = GainPlugin::activate(&m, audio(1, 512)).unwrap();
    let mut live = p.snapshot();
    assert_eq!(m.get_value(1, Some(&live)), Some(3.0));
    p.flush(&[set(1, 5.0), set(0, 6.0)]);
    assert_eq!(p.get_value(1), Some(5.0));
    assert_eq!(p.get_value(3), None);
    p.publish(&mut live);
    assert_eq!(m.get_value(1, Some(&live)), Some(5.0));
    assert_eq!(m.get_value(0, Some(&live)), Some(6.0));
    assert_eq!(m.get_value(3, Some(&live)), None);
    p.deactivate(&mut m);
    assert_eq!(m.get_value(1, None), Some(5.0));
    assert_eq!(m.get_value(0, None), Some(6.0));
    assert_eq!(m.count(), 3);
}

#[test]
fn activation_refuses_zero_frame_bounds() {
    let m = main_thread("gain", false);
    assert!(matches!(GainPlugin::activate(&m, audio(0, 512)), Err(ActivationError::BadFrameBounds)));
    assert!(matches!(GainPlugin::activate(&m, audio(1, 0)), Err(ActivationError::BadFrameBounds)));
    assert!(matches!(GainPlugin::activate(&m, audio(64, 32)), Err(ActivationError::BadFrameBounds)));
    assert!(GainPlugin::activate(&m, audio(32, 32)).is_ok());
    assert_eq!(check_audio_config(audio(1, 4096)), Ok(()));
}

#[test]
fn rescan_is_consumed_on_main_thread() {
    let mut m = main_thread("gain", true);
    assert_eq!(m.on_main_thread(), None);
    m.request_rescan();
    assert_eq!(m.on_main_thread(), Some(15));
    assert_eq!(m.on_main_thread(), None);
    let mut quiet = main_thread("gain", false);
    quiet.request_rescan();
    assert_eq!(quiet.on_main_thread(), None);
    assert_eq!(quiet.capabilities(), caps(false, false));
}

#[test]
fn lifecycle_runs_in_order() {
    let mut s = LifecycleState::Unloaded;
    s = next_state(s, LifecycleEvent::CreateShared { host_usable: true }).unwrap();
    assert_eq!(s, LifecycleState::SharedCreated);
    s = next_state(s, LifecycleEvent::CreateMainThread { config: Ok(()) }).unwrap();
    assert_eq!(s, LifecycleState::MainThreadCreated);
    s = next_state(s, LifecycleEvent::Activate { audio: audio(1, 256) }).unwrap();
    assert_eq!(s, LifecycleState::Activated);
    s = next_state(s, LifecycleEvent::Deactivate).unwrap();
    assert_eq!(s, LifecycleState::Deactivated);
    s = next_state(s, LifecycleEvent::Activate { audio: audio(1, 256) }).unwrap();
    assert_eq!(s, LifecycleState::Activated);
    assert_eq!(next_state(s, LifecycleEvent::Unload), Err(LifecycleError::OutOfOrder));
    s = next_state(s, LifecycleEvent::Deactivate).unwrap();
    assert_eq!(next_state(s, LifecycleEvent::Unload), Ok(LifecycleState::Unloaded));
}

#[test]
fn lifecycle_errors() {
    assert_eq!(
        next_state(LifecycleState::Unloaded, LifecycleEvent::CreateShared { host_usable: false }),
        Err(LifecycleError::Init(InitError::HostUnusable))
    );
    assert_eq!(
        next_state(
            LifecycleState::SharedCreated,
            LifecycleEvent::CreateMainThread { config: Err(InitError::EmptyParamName) }
        ),
        Err(LifecycleError::Init(InitError::EmptyParamName))
    );
    assert_eq!(
        next_state(LifecycleState::MainThreadCreated, LifecycleEvent::Activate { audio: audio(0, 0) }),
        Err(LifecycleError::Activation(ActivationError::BadFrameBounds))
    );
    assert_eq!(
        next_state(LifecycleState::Unloaded, LifecycleEvent::Activate { audio: audio(1, 1) }),
        Err(LifecycleError::OutOfOrder)
    );
    assert_eq!(
        next_state(LifecycleState::MainThreadCreated, LifecycleEvent::Deactivate),
        Err(LifecycleError::OutOfOrder)
    );
}

#[test]
fn ports_are_one_stereo_pair() {
    assert_eq!(port_count(true), 1);
    assert_eq!(port_count(false), 1);
    for is_input in [true, false] {
        let info = port_info(is_input, 0).unwrap();
        assert_eq!(info.id, 0);
        assert_eq!(info.name, "main");
        assert_eq!(info.channel_count, 2);
        assert_eq!(info.flags, 1);
        assert_eq!(info.layout, PortLayout::Stereo);
        assert_eq!(info.in_place_pair, None);
        assert!(port_info(is_input, 1).is_none());
    }
}

#[test]
fn single_sample_doubles_in_both_widths() {
    let g32 = |x: f32| x * GAIN as f32;
    let g64 = |x: f64| x * GAIN as f64;
    let mut a = [0.75f32];
    process_in_place(&mut a, &g32);
    assert_eq!(a, [1.5f32]);
    let mut b = [-3.25f64];
    process_in_place(&mut b, &g64);
    assert_eq!(b, [-6.5f64]);
    let mut out32 = [0.0f32];
    process_separate(&[0.75f32], &mut out32, &g32);
    assert_eq!(out32, [1.5f32]);
    let mut out64 = [0.0f64];
    process_separate(&[-3.25f64], &mut out64, &g64);
    assert_eq!(out64, [-6.5f64]);
}

#[test]
fn stereo_block_of_ones_becomes_twos() {
    let g = |x: f32| x * GAIN as f32;
    let input = [[1.0f32; 4], [1.0f32; 4]];
    let mut output = [[0.0f32; 4], [0.0f32; 4]];
    for (i, o) in input.iter().zip(output.iter_mut()) {
        process_separate(i, o, &g);
    }
    assert_eq!(output, [[2.0f32; 4], [2.0f32; 4]]);
    let mut shared = [[1.0f64; 4], [1.0f64; 4]];
    for ch in shared.iter_mut() {
        process_in_place(ch, &|x: f64| x * GAIN as f64);
    }
    assert_eq!(shared, [[2.0f64; 4], [2.0f64; 4]]);
    assert_eq!(block_status(true), ProcessStatus::ContinueIfNotQuiet);
}

#[test]
fn empty_and_mismatched_buffers_are_safe() {
    let g = |x: f32| x * 2.0;
    let mut empty: [f32; 0] = [];
    process_in_place(&mut empty, &g);
    let mut out = [5.0f32, 5.0, 5.0];
    process_separate(&[1.0f32], &mut out, &g);
    assert_eq!(out, [2.0, 5.0, 5.0]);
    let mut short = [0.0f32];
    process_separate(&[1.0f32, 3.0], &mut short, &g);
    assert_eq!(short, [2.0]);
    assert_eq!(block_status(false), ProcessStatus::ContinueIfNotQuiet);
}

#[test]
fn end_to_end_scenario() {
    let mut m = main_thread("gain,tone,mix", true);
    assert_eq!(m.count(), 3);
    assert_eq!(m.get_info(0).unwrap().name, "gain");
    assert_eq!(m.get_info(0).unwrap().id, 0);
    for (min_frames, max_frames) in [(1u32, 64u32), (16, 1024), (1, 8192)] {
        let p = GainPlugin::activate(&m, audio(min_frames, max_frames)).unwrap();
        p.deactivate(&mut m);
    }
    let mut left = [1.0f64; 4];
    let mut right = [1.0f64; 4];
    process_in_place(&mut left, &|x: f64| x * GAIN as f64);
    process_in_place(&mut right, &|x: f64| x * GAIN as f64);
    assert_eq!(left, [2.0; 4]);
    assert_eq!(right, [2.0; 4]);
}

#[test]
fn dist_paths() {
    assert_eq!(dist_dir("/root/proj"), "/root/proj/target/dist");
    assert_eq!(dist_dir("/root/proj/"), "/root/proj/target/dist");
    assert_eq!(dist_dir(""), "target/dist");
    assert_eq!(artifact_name("1"), "hello-world1.clap");
    assert_eq!(artifact_name("2"), "hello-world2.clap");
}

#[test]
fn channel_pairs_process_only_when_both_sides_exist() {
    let g = |x: f64| x * GAIN as f64;
    let input = [1.0f64, -0.5];
    let mut out = [9.0f64, 9.0];
    process_channel(ChannelPair::InputOutput(&input, &mut out), &g);
    assert_eq!(out, [2.0, -1.0]);
    let mut shared = [0.25f64, 4.0];
    process_channel(ChannelPair::InPlace(&mut shared), &g);
    assert_eq!(shared, [0.5, 8.0]);
    let mut alone = [3.0f64, 3.0];
    process_channel(ChannelPair::OutputOnly(&mut alone), &g);
    assert_eq!(alone, [3.0, 3.0]);
    process_channel(ChannelPair::InputOnly(&input), &g);
    assert_eq!(input, [1.0, -0.5]);
}

#[test]
fn overwrite_copies_in_place() {
    let mut a = ParamValues::new(2, 0.0f64);
    let mut b = ParamValues::new(2, 1.0f64);
    b.apply(&set(0, 4.0));
    a.overwrite(&b);
    assert_eq!(a.get(0), Some(4.0));
    assert_eq!(a.get(1), Some(1.0));
}
