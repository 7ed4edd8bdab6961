use vstd::prelude::*;

verus! {

/// The channel layout of an audio port.
#[derive(Debug, Clone, Copy, PartialEq, Eq, Structural)]
pub enum PortLayout {
    Mono,
    Stereo,
}

/// What the host learns about one audio port.
pub struct AudioPortInfo {
    pub id: u32,
    pub name: String,
    pub channel_count: u32,
    /// The port's flag bits, as the host reads them.
    pub flags: u32,
    pub layout: PortLayout,
    /// The index of the port of the other direction that may share storage.
    pub in_place_pair: Option<u32>,
}

/// Relies on clack_extensions' `AudioPortFlags::IS_MAIN`: the bit that marks a
/// main port.
#[verifier::external_body]
fn main_port_flag() -> (r: u32)
    ensures
        r == 1,
{
    clack_extensions::audio_ports::AudioPortFlags::IS_MAIN.bits()
}

/// The number of ports of one direction: one input and one output.
pub fn port_count(_is_input: bool) -> (r: u32)
    ensures
        r == 1,
{
    1
}

/// The port at `index` of one direction: a main stereo port named "main" with
/// id 0 at index 0, and nothing elsewhere.
pub fn port_info(_is_input: bool, index: u32) -> (r: Option<AudioPortInfo>)
    ensures
        r is Some <==> index == 0,
        r matches Some(info) ==> info.id == 0 && info.name@ == "main"@ && info.channel_count
            == 2 && info.flags == 1 && info.layout == PortLayout::Stereo && info.in_place_pair
            is None,
{
    if index == 0 {
        let name = "main".to_string();
        proof {
            reveal_strlit("main");
        }
        Some(
            AudioPortInfo {
                id: 0,
                name,
                channel_count: 2,
                flags: main_port_flag(),
                layout: PortLayout::Stereo,
                in_place_pair: None,
            },
        )
    } else {
        None
    }
}

} // verus!
