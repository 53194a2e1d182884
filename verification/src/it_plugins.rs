use crate::amiga_module::copy_bytes;
use crate::error::DecodeError;
use crate::it_module::le32_at;
use vstd::prelude::*;

verus! {

/// The most mix plugins that a file describes.
pub const MAX_MIXPLUGINS: usize = 64;

/// The fixed part of the description of a mix plugin.
#[derive(Clone, Copy, Debug)]
pub struct SndMixPluginInfo {
    pub id1: u32,
    pub id2: u32,
    pub input_routing: u32,
    pub output_routing: u32,
    pub reserved: [u32; 4],
}

/// A mix plugin: its description and the data it saved.
#[derive(Clone, Debug)]
pub struct MixPlugin {
    pub info: SndMixPluginInfo,
    pub data: Option<Vec<u8>>,
}

/// The plugins of a file: the plugin setting of each of 64 channels, and
/// 64 mix plugins.
#[derive(Debug)]
pub struct Plugins {
    pub channel_settings: Vec<u32>,
    pub mix: Vec<MixPlugin>,
}

impl MixPlugin {
    /// Whether the plugin is unset: all numbers 0 and no data.
    pub open spec fn is_blank(&self) -> bool {
        &&& self.info.id1 == 0
        &&& self.info.id2 == 0
        &&& self.info.input_routing == 0
        &&& self.info.output_routing == 0
        &&& self.info.reserved@ == seq![0u32, 0u32, 0u32, 0u32]
        &&& self.data.is_none()
    }

    /// An unset plugin.
    pub fn blank() -> (r: MixPlugin)
        ensures
            r.is_blank(),
    {
        let reserved: [u32; 4] = [0, 0, 0, 0];
        assert(reserved@ =~= seq![0u32, 0u32, 0u32, 0u32]);
        MixPlugin {
            info: SndMixPluginInfo {
                id1: 0,
                id2: 0,
                input_routing: 0,
                output_routing: 0,
                reserved,
            },
            data: None,
        }
    }
}

impl Plugins {
    /// Whether no channel has a setting and no plugin is set.
    pub open spec fn is_blank(&self) -> bool {
        &&& self.channel_settings@.len() == 64
        &&& forall|c: int| 0 <= c < 64 ==> (#[trigger] self.channel_settings@[c]) == 0
        &&& self.mix@.len() == MAX_MIXPLUGINS
        &&& forall|k: int| 0 <= k < MAX_MIXPLUGINS ==> (#[trigger] self.mix@[k]).is_blank()
    }

    pub fn default() -> (r: Plugins)
        ensures
            r.is_blank(),
    {
        let mut channel_settings: Vec<u32> = Vec::new();
        let mut mix: Vec<MixPlugin> = Vec::new();
        let mut i: usize = 0;
        while i < MAX_MIXPLUGINS
            invariant
                0 <= i <= MAX_MIXPLUGINS,
                channel_settings@.len() == i,
                mix@.len() == i,
                forall|c: int| 0 <= c < i ==> (#[trigger] channel_settings@[c]) == 0,
                forall|k: int| 0 <= k < i ==> (#[trigger] mix@[k]).is_blank(),
            decreases MAX_MIXPLUGINS - i,
        {
            channel_settings.push(0);
            mix.push(MixPlugin::blank());
            i += 1;
        }
        Plugins { channel_settings, mix }
    }

    /// Plugins with nothing set.
    pub fn new() -> (r: Plugins)
        ensures
            r.is_blank(),
    {
        Self::default()
    }
}

/// What a mix plugin holds: the eight numbers of its description, and the
/// data it saved.
pub struct MixPluginView {
    pub words: Seq<u32>,
    pub data: Option<Seq<u8>>,
}

/// What the plugins hold.
pub struct PluginsView {
    pub channel_settings: Seq<u32>,
    pub mix: Seq<MixPluginView>,
}

/// The eight numbers of the description of a plugin, in the order of the
/// file.
pub open spec fn info_words(info: SndMixPluginInfo) -> Seq<u32> {
    seq![
        info.id1,
        info.id2,
        info.input_routing,
        info.output_routing,
        info.reserved@[0],
        info.reserved@[1],
        info.reserved@[2],
        info.reserved@[3],
    ]
}

impl View for MixPlugin {
    type V = MixPluginView;

    open spec fn view(&self) -> MixPluginView {
        MixPluginView {
            words: info_words(self.info),
            data: match self.data {
                Some(d) => Some(d@),
                None => None,
            },
        }
    }
}

impl View for Plugins {
    type V = PluginsView;

    open spec fn view(&self) -> PluginsView {
        PluginsView {
            channel_settings: self.channel_settings@,
            mix: self.mix@.map_values(|m: MixPlugin| m@),
        }
    }
}

/// The tag "CHFX" of the chunk of channel settings, read as a number with
/// the low byte first.
pub const CHFX: u32 = 0x58464843;

/// The number of bytes of the description of a plugin.
pub const INFO_SIZE: usize = 32;

/// Whether the chunk at `pos` is that of a mix plugin: "FX" and two
/// characters from "0" on.
pub open spec fn is_fx_chunk(source: Seq<u8>, pos: int) -> bool {
    source[pos] == 0x46 && source[pos + 1] == 0x58 && source[pos + 2] >= 0x30 && source[pos + 3]
        >= 0x30
}

/// The index of the mix plugin of the chunk at `pos`: its two characters
/// read as decimal digits.
pub open spec fn fx_index(source: Seq<u8>, pos: int) -> int {
    (source[pos + 2] - 0x30) * 10 + (source[pos + 3] - 0x30)
}

/// The plugins after the chunks from `pos` on were read into `state`, and
/// the place at which reading stops: at the first chunk that is neither
/// one of channel settings nor one of a mix plugin, or where fewer than
/// eight bytes are left.
///
/// A chunk has a tag of four bytes, its size in four bytes, and as many
/// bytes of content. The chunk of channel settings holds a setting of four
/// bytes for each of 64 channels. The chunk of a mix plugin holds the eight
/// numbers of its description and then its data, if it has any.
pub open spec fn spec_load_plugins(source: Seq<u8>, pos: int, state: PluginsView) -> Result<
    (PluginsView, int),
    DecodeError,
>
    decreases source.len() - pos,
{
    if pos < 0 || source.len() - pos < 8 {
        Ok((state, pos))
    } else {
        let id = le32_at(source, pos);
        let size = le32_at(source, pos + 4) as int;
        let left = source.len() - (pos + 8);
        if source.len() - pos < size {
            Err(DecodeError::MalformedField)
        } else if id == CHFX {
            if size < 253 || left < 256 || left < size {
                Err(DecodeError::TruncatedInput)
            } else {
                spec_load_plugins(
                    source,
                    pos + 8 + size,
                    PluginsView {
                        channel_settings: Seq::new(64, |ch: int| le32_at(source, pos + 8 + 4 * ch)),
                        ..state
                    },
                )
            }
        } else if is_fx_chunk(source, pos) {
            let index = fx_index(source, pos);
            if index >= MAX_MIXPLUGINS {
                Err(DecodeError::MalformedField)
            } else if left < INFO_SIZE {
                Err(DecodeError::TruncatedInput)
            } else if size < INFO_SIZE {
                Err(DecodeError::MalformedField)
            } else if left < size {
                Err(DecodeError::TruncatedInput)
            } else {
                let plugin = MixPluginView {
                    words: Seq::new(8, |k: int| le32_at(source, pos + 8 + 4 * k)),
                    data: if size > INFO_SIZE {
                        Some(source.subrange(pos + 8 + INFO_SIZE, pos + 8 + size))
                    } else {
                        state.mix[index].data
                    },
                };
                spec_load_plugins(
                    source,
                    pos + 8 + size,
                    PluginsView { mix: state.mix.update(index, plugin), ..state },
                )
            }
        } else {
            Ok((state, pos))
        }
    }
}

/// The plugins with nothing set.
pub open spec fn blank_plugins() -> PluginsView {
    PluginsView {
        channel_settings: Seq::new(64, |c: int| 0u32),
        mix: Seq::new(
            MAX_MIXPLUGINS as nat,
            |k: int| MixPluginView { words: Seq::new(8, |w: int| 0u32), data: None },
        ),
    }
}

/// Reads the number of four bytes at `at`, the low byte first.
pub fn read_le32(data: &[u8], at: usize) -> (r: u32)
    requires
        at + 4 <= data.len(),
    ensures
        r == le32_at(data@, at as int),
{
    (data[at] as u32 + 256 * (data[at + 1] as u32)) + 65536 * (data[at + 2] as u32 + 256 * (data[at
        + 3] as u32))
}

impl Plugins {
    /// Reads the chunks of plugins at the start of `source`. Gives the
    /// plugins and the number of bytes that the chunks take.
    pub fn load(source: &[u8]) -> (r: Result<(Plugins, usize), DecodeError>)
        ensures
            match spec_load_plugins(source@, 0, blank_plugins()) {
                Ok((view, used)) => r.is_ok() && r.unwrap().0@ == view && r.unwrap().1 == used,
                Err(e) => r.is_err() && r.unwrap_err() == e,
            },
    {
        let mut plugins = Self::new();
        proof {
            assert(plugins@.channel_settings =~= blank_plugins().channel_settings);
            assert forall|k: int| 0 <= k < MAX_MIXPLUGINS implies (#[trigger] plugins@.mix[k])
                == blank_plugins().mix[k] by {
                assert(plugins.mix@[k].is_blank());
                assert(plugins.mix@[k]@.words =~= Seq::new(8, |w: int| 0u32));
            }
            assert(plugins@.mix =~= blank_plugins().mix);
        }
        let mut pos: usize = 0;
        while source.len() - pos >= 8
            invariant
                0 <= pos <= source.len(),
                plugins.channel_settings@.len() == 64,
                plugins.mix@.len() == MAX_MIXPLUGINS,
                spec_load_plugins(source@, 0, blank_plugins()) == spec_load_plugins(
                    source@,
                    pos as int,
                    plugins@,
                ),
            decreases source.len() - pos,
        {
            let plugin_id: u32 = read_le32(source, pos);
            let plugin_size: usize = read_le32(source, pos + 4) as usize;
            let left: usize = source.len() - (pos + 8);
            if source.len() - pos < plugin_size {
                return Err(DecodeError::MalformedField);
            }
            let ghost before = plugins@;
            if plugin_id == CHFX {
                if plugin_size < 253 || left < 256 || left < plugin_size {
                    return Err(DecodeError::TruncatedInput);
                }
                let mut ch: usize = 0;
                while ch < 64
                    invariant
                        0 <= ch <= 64,
                        pos + 8 + 256 <= source.len(),
                        plugins.channel_settings@.len() == 64,
                        plugins@.mix == before.mix,
                        forall|k: int|
                            0 <= k < ch ==> (#[trigger] plugins.channel_settings@[k]) == le32_at(
                                source@,
                                pos + 8 + 4 * k,
                            ),
                    decreases 64 - ch,
                {
                    plugins.channel_settings.set(ch, read_le32(source, pos + 8 + 4 * ch));
                    ch += 1;
                }
                proof {
                    assert(plugins@.channel_settings =~= Seq::new(
                        64,
                        |ch: int| le32_at(source@, pos + 8 + 4 * ch),
                    ));
                }
                pos = pos + 8 + plugin_size;
            } else if source[pos] == 0x46 && source[pos + 1] == 0x58 && source[pos + 2] >= 0x30
                && source[pos + 3] >= 0x30 {
                let plugin_index: usize = ((source[pos + 2] - 0x30) as usize) * 10 + (source[pos
                    + 3] - 0x30) as usize;
                if plugin_index >= MAX_MIXPLUGINS {
                    return Err(DecodeError::MalformedField);
                }
                if left < INFO_SIZE {
                    return Err(DecodeError::TruncatedInput);
                }
                if plugin_size < INFO_SIZE {
                    return Err(DecodeError::MalformedField);
                }
                if left < plugin_size {
                    return Err(DecodeError::TruncatedInput);
                }
                let at: usize = pos + 8;
                let reserved: [u32; 4] = [
                    read_le32(source, at + 16),
                    read_le32(source, at + 20),
                    read_le32(source, at + 24),
                    read_le32(source, at + 28),
                ];
                let info = SndMixPluginInfo {
                    id1: read_le32(source, at),
                    id2: read_le32(source, at + 4),
                    input_routing: read_le32(source, at + 8),
                    output_routing: read_le32(source, at + 12),
                    reserved,
                };
                proof {
                    assert(info_words(info) =~= Seq::new(
                        8,
                        |k: int| le32_at(source@, pos + 8 + 4 * k),
                    ));
                }
                let data: Option<Vec<u8>> = if plugin_size > INFO_SIZE {
                    Some(copy_bytes(source, at + INFO_SIZE, at + plugin_size))
                } else {
                    match &plugins.mix[plugin_index].data {
                        Some(d) => Some(copy_bytes(d.as_slice(), 0, d.len())),
                        None => None,
                    }
                };
                proof {
                    match plugins.mix@[plugin_index as int].data {
                        Some(d) => {
                            assert(d@.subrange(0, d@.len() as int) =~= d@);
                        },
                        None => {},
                    }
                }
                plugins.mix.set(plugin_index, MixPlugin { info, data });
                proof {
                    assert(plugins@.mix =~= before.mix.update(
                        plugin_index as int,
                        plugins.mix@[plugin_index as int]@,
                    ));
                }
                pos = pos + 8 + plugin_size;
            } else {
                return Ok((plugins, pos));
            }
        }
        Ok((plugins, pos))
    }
}

} // verus!
