use vstd::prelude::*;
use crate::config::{comma_pieces, holds_nul, InitError, PluginConfig, string_views};
use crate::lifecycle::{check_audio_config, supported_config, ActivationError, AudioConfig};
use crate::params::{apply_event, apply_events, value_after, ParamEvent, ParamValues};

verus! {

/// The lowest value of every parameter.
pub const PARAM_MIN: i32 = 0;

/// The value every parameter starts at.
pub const PARAM_DEFAULT: i32 = 0;

/// The highest value of every parameter.
pub const PARAM_MAX: i32 = 1000;

/// The identity the host reads before any instance exists.
pub struct PluginIdentity {
    pub id: String,
    pub name: String,
    pub features: Vec<String>,
}

/// What the host learns about one parameter.
pub struct ParamInfo {
    pub id: u32,
    pub name: String,
    /// The group the host files the parameter under.
    pub module: String,
    pub default_value: i32,
    pub min_value: i32,
    pub max_value: i32,
    /// The parameter's flag bits, as the host reads them.
    pub flags: u32,
}

/// The optional host capabilities that the lookup at creation found.
#[derive(Debug, Clone, Copy, PartialEq, Eq, Structural)]
pub struct HostCapabilities {
    pub log: bool,
    pub params: bool,
}

/// Relies on clack_plugin's `features::UTILITY`: the feature tag "utility".
#[verifier::external_body]
fn utility_feature() -> (r: String)
    ensures
        r@ == "utility"@,
{
    clack_plugin::plugin::features::UTILITY.to_string_lossy().into_owned()
}

/// Relies on clack_extensions' `ParamInfoFlags::IS_AUTOMATABLE`: the bit that
/// marks a parameter the host may automate.
#[verifier::external_body]
fn automatable_flag() -> (r: u32)
    ensures
        r == 32,
{
    clack_extensions::params::ParamInfoFlags::IS_AUTOMATABLE.bits()
}

/// Relies on clack_extensions' `ParamRescanFlags::all()`: the union of the
/// rescan bits for values, text, info and everything.
#[verifier::external_body]
fn rescan_all_flags() -> (r: u32)
    ensures
        r == 15,
{
    clack_extensions::params::ParamRescanFlags::all().bits()
}

/// The part of the plugin shared by all threads for the whole load.
pub struct GainPluginShared {}

impl GainPluginShared {
    /// Creation at load; refused when the host's handle has no function table.
    pub fn new(host_usable: bool) -> (r: Result<GainPluginShared, InitError>)
        ensures
            r is Ok <==> host_usable,
            !host_usable ==> r == Err::<GainPluginShared, InitError>(InitError::HostUnusable),
    {
        if host_usable {
            Ok(GainPluginShared {})
        } else {
            Err(InitError::HostUnusable)
        }
    }
}

/// The main-thread part: the capabilities the host offered, the parameter
/// table, the parameter values while inactive, and a pending rescan.
pub struct GainPluginMainThread<V> {
    capabilities: HostCapabilities,
    param_names: Vec<String>,
    values: ParamValues<V>,
    rescan_pending: bool,
}

impl<V: Copy> GainPluginMainThread<V> {
    pub closed spec fn caps(&self) -> HostCapabilities {
        self.capabilities
    }

    pub closed spec fn names(&self) -> Seq<Seq<char>> {
        string_views(self.param_names@)
    }

    pub closed spec fn values(&self) -> Seq<V> {
        self.values.view()
    }

    pub closed spec fn rescan_pending(&self) -> bool {
        self.rescan_pending
    }

    /// One value per parameter name, and an index fits a `u32`.
    pub open spec fn wf(&self) -> bool {
        &&& self.names().len() <= u32::MAX
        &&& self.values().len() == self.names().len()
    }

    /// Creation on the main thread, from the capabilities the lookup found
    /// and the static configuration; every parameter starts at `initial`.
    pub fn new(
        _shared: &GainPluginShared,
        capabilities: HostCapabilities,
        config: PluginConfig,
        initial: V,
    ) -> (r: Self)
        requires
            config.wf(),
        ensures
            r.wf(),
            r.caps() == capabilities,
            r.names() == string_views(config.param_names@),
            r.values() == Seq::new(config.param_names.len() as nat, |_i: int| initial),
            !r.rescan_pending(),
    {
        let n = config.param_count();
        let values = ParamValues::new(n, initial);
        GainPluginMainThread {
            capabilities,
            param_names: config.param_names,
            values,
            rescan_pending: false,
        }
    }

    /// The capabilities the host offered.
    pub fn capabilities(&self) -> (r: HostCapabilities)
        ensures
            r == self.caps(),
    {
        self.capabilities
    }

    /// The number of parameters, fixed for the session.
    pub fn count(&self) -> (r: u32)
        requires
            self.wf(),
        ensures
            r == self.names().len(),
    {
        self.param_names.len() as u32
    }

    /// The parameter at `index`: its id is its index, its name the
    /// configured one; `None` past the end of the table.
    pub fn get_info(&self, index: u32) -> (r: Option<ParamInfo>)
        requires
            self.wf(),
        ensures
            r is Some <==> index < self.names().len(),
            r matches Some(info) ==> {
                &&& info.id == index
                &&& info.name@ == self.names()[index as int]
                &&& info.module@ == "ultra/hello"@
                &&& info.default_value == PARAM_DEFAULT
                &&& info.min_value == PARAM_MIN
                &&& info.max_value == PARAM_MAX
                &&& info.flags == 32
            },
    {
        if (index as usize) < self.param_names.len() {
            let name = self.param_names[index as usize].clone();
            let module = "ultra/hello".to_string();
            proof {
                reveal_strlit("ultra/hello");
            }
            Some(
                ParamInfo {
                    id: index,
                    name,
                    module,
                    default_value: PARAM_DEFAULT,
                    min_value: PARAM_MIN,
                    max_value: PARAM_MAX,
                    flags: automatable_flag(),
                },
            )
        } else {
            None
        }
    }

    /// The current value of parameter `param_id`; `None` for an unknown id.
    /// While the plugin is active, `live` holds the audio thread's values and
    /// the value comes from there; while inactive it is `None` and the value
    /// comes from the main thread's own table.
    pub fn get_value(&self, param_id: u32, live: Option<&ParamValues<V>>) -> (r: Option<V>)
        requires
            self.wf(),
            live matches Some(l) ==> l.view().len() == self.names().len(),
        ensures
            r == (if param_id < self.names().len() {
                Some(
                    match live {
                        Some(l) => l.view()[param_id as int],
                        None => self.values()[param_id as int],
                    },
                )
            } else {
                None
            }),
    {
        match live {
            Some(l) => l.get(param_id),
            None => self.values.get(param_id),
        }
    }

    /// Applies a batch of parameter events while inactive, last write wins.
    pub fn flush(&mut self, events: &[ParamEvent<V>])
        requires
            old(self).wf(),
        ensures
            final(self).wf(),
            final(self).caps() == old(self).caps(),
            final(self).names() == old(self).names(),
            final(self).rescan_pending() == old(self).rescan_pending(),
            final(self).values() == apply_events(old(self).values(), events@),
            forall|id: int|
                0 <= id < old(self).values().len() ==> #[trigger] final(self).values()[id]
                    == value_after(old(self).values()[id], events@, id),
    {
        self.values.flush(events);
    }

    /// Notes that parameter metadata changed and the host should re-read it.
    pub fn request_rescan(&mut self)
        ensures
            final(self).rescan_pending(),
            final(self).caps() == old(self).caps(),
            final(self).names() == old(self).names(),
            final(self).values() == old(self).values(),
            final(self).wf() == old(self).wf(),
    {
        self.rescan_pending = true;
    }

    /// Consumes a pending rescan: returns the rescan bits to send the host
    /// when one is pending and the host offers parameter callbacks, and
    /// nothing otherwise.
    pub fn on_main_thread(&mut self) -> (r: Option<u32>)
        ensures
            r == (if old(self).rescan_pending() && old(self).caps().params {
                Some(15u32)
            } else {
                None
            }),
            !final(self).rescan_pending(),
            final(self).caps() == old(self).caps(),
            final(self).names() == old(self).names(),
            final(self).values() == old(self).values(),
            final(self).wf() == old(self).wf(),
    {
        let pending = self.rescan_pending;
        self.rescan_pending = false;
        if pending && self.capabilities.params {
            Some(rescan_all_flags())
        } else {
            None
        }
    }
}

/// The parameter table follows the configured list: one entry per name of
/// the list, in order, so the count is the list's length and the entry at
/// each index keeps that index's name for the whole session.
pub proof fn lemma_table_follows_list<V: Copy>(
    list: Seq<char>,
    config: PluginConfig,
    main: GainPluginMainThread<V>,
)
    requires
        string_views(config.param_names@) == comma_pieces(list),
        main.names() == string_views(config.param_names@),
    ensures
        main.names().len() == comma_pieces(list).len(),
        forall|i: int| 0 <= i < main.names().len() ==> #[trigger] main.names()[i] == comma_pieces(list)[i],
{
}

/// The audio-thread part, alive from activation to deactivation: it owns the
/// parameter values while active.
pub struct GainPlugin<V> {
    values: ParamValues<V>,
}

impl<V: Copy> GainPlugin<V> {
    pub closed spec fn values(&self) -> Seq<V> {
        self.values.view()
    }

    /// The identity record: id "KEIK", the given display name, and the
    /// feature tag "utility"; refused for a name holding a NUL, which cannot
    /// stand in a C string.
    pub fn get_descriptor(name: &str) -> (r: Result<PluginIdentity, InitError>)
        ensures
            r is Ok <==> !name@.contains('\0'),
            name@.contains('\0') ==> r == Err::<PluginIdentity, InitError>(InitError::BadName),
            r matches Ok(d) ==> d.id@ == "KEIK"@ && d.name@ == name@ && d.features@.len() == 1
                && d.features@[0]@ == "utility"@,
    {
        if holds_nul(name) {
            return Err(InitError::BadName);
        }
        let id = "KEIK".to_string();
        proof {
            reveal_strlit("KEIK");
        }
        let mut features: Vec<String> = Vec::new();
        features.push(utility_feature());
        Ok(PluginIdentity { id, name: name.to_string(), features })
    }

    /// Activation with an audio configuration: refused for an unsupported
    /// one; otherwise the values start as the main thread holds them.
    pub fn activate(main: &GainPluginMainThread<V>, audio: AudioConfig) -> (r: Result<
        GainPlugin<V>,
        ActivationError,
    >)
        ensures
            r is Ok <==> supported_config(audio),
            r matches Ok(p) ==> p.values() == main.values(),
    {
        match check_audio_config(audio) {
            Ok(()) => Ok(GainPlugin { values: main.values.duplicate() }),
            Err(e) => Err(e),
        }
    }

    /// The value of parameter `param_id` on the audio thread; `None` for an
    /// unknown id.
    pub fn get_value(&self, param_id: u32) -> (r: Option<V>)
        ensures
            r == (if param_id < self.values().len() {
                Some(self.values()[param_id as int])
            } else {
                None
            }),
    {
        self.values.get(param_id)
    }

    /// A copy of the current values, for the main thread to read while the
    /// plugin is active.
    pub fn snapshot(&self) -> (r: ParamValues<V>)
        ensures
            r.view() == self.values(),
    {
        self.values.duplicate()
    }

    /// Writes the current values over a snapshot of the same size, without
    /// allocating.
    pub fn publish(&self, snapshot: &mut ParamValues<V>)
        requires
            old(snapshot).view().len() == self.values().len(),
        ensures
            final(snapshot).view() == self.values(),
    {
        snapshot.overwrite(&self.values);
    }

    /// The number of parameter values held.
    pub fn value_count(&self) -> (r: usize)
        ensures
            r == self.values().len(),
    {
        self.values.count()
    }

    /// Applies one parameter event as it arrives.
    pub fn apply(&mut self, event: &ParamEvent<V>)
        ensures
            final(self).values() == apply_event(old(self).values(), *event),
    {
        self.values.apply(event);
    }

    /// Applies the parameter events of one block, last write wins.
    pub fn flush(&mut self, events: &[ParamEvent<V>])
        ensures
            final(self).values() == apply_events(old(self).values(), events@),
            forall|id: int|
                0 <= id < old(self).values().len() ==> #[trigger] final(self).values()[id]
                    == value_after(old(self).values()[id], events@, id),
    {
        self.values.flush(events);
    }

    /// Deactivation: the values go back to the main thread.
    pub fn deactivate(self, main: &mut GainPluginMainThread<V>)
        requires
            self.values().len() == old(main).values().len(),
            old(main).wf(),
        ensures
            final(main).wf(),
            final(main).values() == self.values(),
            final(main).names() == old(main).names(),
            final(main).caps() == old(main).caps(),
            final(main).rescan_pending() == old(main).rescan_pending(),
    {
        main.values = self.values;
    }
}

} // verus!
