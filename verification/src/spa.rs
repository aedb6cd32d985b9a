//! Identifiers of the SPA format keys and media types, the raw video and audio
//! descriptions, and the format properties that a description stands for.

use std::collections::HashMap;
use vstd::prelude::*;

use crate::flags::PropertyFlags;
use crate::pod::{Fraction, Id, PodValue, Property, Rectangle};

verus! {

broadcast use vstd::std_specs::hash::group_hash_axioms;

/// A key of a format object (`SPA_FORMAT_*`).
#[derive(Clone, Copy, Debug, PartialEq, Eq, Structural)]
pub struct FormatProperties(pub u32);

impl FormatProperties {
    /// The raw key.
    pub fn as_raw(&self) -> (r: u32)
        ensures r == self.0,
    {
        self.0
    }
}

/// A media type (`SPA_MEDIA_TYPE_*`).
#[derive(Clone, Copy, Debug, PartialEq, Eq, Structural)]
pub struct MediaType(pub u32);

impl MediaType {
    /// The raw id.
    pub fn as_raw(&self) -> (r: u32)
        ensures r == self.0,
    {
        self.0
    }
}

/// A media subtype (`SPA_MEDIA_SUBTYPE_*`).
#[derive(Clone, Copy, Debug, PartialEq, Eq, Structural)]
pub struct MediaSubtype(pub u32);

impl MediaSubtype {
    /// The raw id.
    pub fn as_raw(&self) -> (r: u32)
        ensures r == self.0,
    {
        self.0
    }
}

/// A raw video pixel format (`SPA_VIDEO_FORMAT_*`).
#[derive(Clone, Copy, Debug, PartialEq, Eq, Structural)]
pub struct VideoFormat(pub u32);

impl VideoFormat {
    /// The raw id.
    pub fn as_raw(&self) -> (r: u32)
        ensures r == self.0,
    {
        self.0
    }
}

/// A video interlace mode (`SPA_VIDEO_INTERLACE_MODE_*`).
#[derive(Clone, Copy, Debug, PartialEq, Eq, Structural)]
pub struct VideoInterlaceMode(pub u32);

impl VideoInterlaceMode {
    /// The raw id.
    pub fn as_raw(&self) -> (r: u32)
        ensures r == self.0,
    {
        self.0
    }
}

/// A raw audio sample format (`SPA_AUDIO_FORMAT_*`).
#[derive(Clone, Copy, Debug, PartialEq, Eq, Structural)]
pub struct AudioFormat(pub u32);

impl AudioFormat {
    /// The raw id.
    pub fn as_raw(&self) -> (r: u32)
        ensures r == self.0,
    {
        self.0
    }
}

/// The format key of the media type (`SPA_FORMAT_mediaType`).
pub const FORMAT_MEDIA_TYPE: u32 = 1;

/// The format key of the media subtype (`SPA_FORMAT_mediaSubtype`).
pub const FORMAT_MEDIA_SUBTYPE: u32 = 2;

/// The format key of the audio format (`SPA_FORMAT_AUDIO_format`).
pub const FORMAT_AUDIO_FORMAT: u32 = 0x10001;

/// The format key of the audio flags (`SPA_FORMAT_AUDIO_flags`).
pub const FORMAT_AUDIO_FLAGS: u32 = 0x10002;

/// The format key of the audio rate (`SPA_FORMAT_AUDIO_rate`).
pub const FORMAT_AUDIO_RATE: u32 = 0x10003;

/// The format key of the audio channels (`SPA_FORMAT_AUDIO_channels`).
pub const FORMAT_AUDIO_CHANNELS: u32 = 0x10004;

/// The format key of the audio position (`SPA_FORMAT_AUDIO_position`).
pub const FORMAT_AUDIO_POSITION: u32 = 0x10005;

/// The format key of the video format (`SPA_FORMAT_VIDEO_format`).
pub const FORMAT_VIDEO_FORMAT: u32 = 0x20001;

/// The format key of the video modifier (`SPA_FORMAT_VIDEO_modifier`).
pub const FORMAT_VIDEO_MODIFIER: u32 = 0x20002;

/// The format key of the video size (`SPA_FORMAT_VIDEO_size`).
pub const FORMAT_VIDEO_SIZE: u32 = 0x20003;

/// The format key of the video framerate (`SPA_FORMAT_VIDEO_framerate`).
pub const FORMAT_VIDEO_FRAMERATE: u32 = 0x20004;

/// The format key of the video max framerate (`SPA_FORMAT_VIDEO_maxFramerate`).
pub const FORMAT_VIDEO_MAX_FRAMERATE: u32 = 0x20005;

/// The format key of the video views (`SPA_FORMAT_VIDEO_views`).
pub const FORMAT_VIDEO_VIEWS: u32 = 0x20006;

/// The format key of the video interlace mode (`SPA_FORMAT_VIDEO_interlaceMode`).
pub const FORMAT_VIDEO_INTERLACE_MODE: u32 = 0x20007;

/// The format key of the video pixel aspect ratio (`SPA_FORMAT_VIDEO_pixelAspectRatio`).
pub const FORMAT_VIDEO_PIXEL_ASPECT_RATIO: u32 = 0x20008;

/// The format key of the video multiview mode (`SPA_FORMAT_VIDEO_multiviewMode`).
pub const FORMAT_VIDEO_MULTIVIEW_MODE: u32 = 0x20009;

/// The format key of the video multiview flags (`SPA_FORMAT_VIDEO_multiviewFlags`).
pub const FORMAT_VIDEO_MULTIVIEW_FLAGS: u32 = 0x2000a;

/// The format key of the video chroma site (`SPA_FORMAT_VIDEO_chromaSite`).
pub const FORMAT_VIDEO_CHROMA_SITE: u32 = 0x2000b;

/// The format key of the video color range (`SPA_FORMAT_VIDEO_colorRange`).
pub const FORMAT_VIDEO_COLOR_RANGE: u32 = 0x2000c;

/// The format key of the video color matrix (`SPA_FORMAT_VIDEO_colorMatrix`).
pub const FORMAT_VIDEO_COLOR_MATRIX: u32 = 0x2000d;

/// The format key of the video transfer function (`SPA_FORMAT_VIDEO_transferFunction`).
pub const FORMAT_VIDEO_TRANSFER_FUNCTION: u32 = 0x2000e;

/// The format key of the video color primaries (`SPA_FORMAT_VIDEO_colorPrimaries`).
pub const FORMAT_VIDEO_COLOR_PRIMARIES: u32 = 0x2000f;

/// The media type audio (`SPA_MEDIA_TYPE_audio`).
pub const MEDIA_TYPE_AUDIO: u32 = 1;

/// The media type video (`SPA_MEDIA_TYPE_video`).
pub const MEDIA_TYPE_VIDEO: u32 = 2;

/// The media subtype raw (`SPA_MEDIA_SUBTYPE_raw`).
pub const MEDIA_SUBTYPE_RAW: u32 = 1;

/// The video format UNKNOWN (`SPA_VIDEO_FORMAT_UNKNOWN`).
pub const VIDEO_FORMAT_UNKNOWN: u32 = 0;

/// The video format BGRA (`SPA_VIDEO_FORMAT_BGRA`).
pub const VIDEO_FORMAT_BGRA: u32 = 12;

/// The interlace mode progressive (`SPA_VIDEO_INTERLACE_MODE_PROGRESSIVE`).
pub const VIDEO_INTERLACE_MODE_PROGRESSIVE: u32 = 0;

/// The audio format UNKNOWN (`SPA_AUDIO_FORMAT_UNKNOWN`).
pub const AUDIO_FORMAT_UNKNOWN: u32 = 0;

/// The id of the enumerated formats parameter of a stream (`SPA_PARAM_EnumFormat`).
pub const PARAM_ENUM_FORMAT: u32 = 3;

/// The id of the buffers parameter of a stream (`SPA_PARAM_Buffers`).
pub const PARAM_BUFFERS: u32 = 5;

/// The type of a format object (`SPA_TYPE_OBJECT_Format`).
pub const TYPE_OBJECT_FORMAT: u32 = 0x40003;

/// The type of a buffers object (`SPA_TYPE_OBJECT_ParamBuffers`).
pub const TYPE_OBJECT_PARAM_BUFFERS: u32 = 0x40004;

/// The key of the accepted buffer data types in a buffers object
/// (`SPA_PARAM_BUFFERS_dataType`).
pub const PARAM_BUFFERS_DATA_TYPE: u32 = 6;

/// The modifier that means "no explicit modifier" (`DRM_FORMAT_MOD_INVALID`).
pub open spec fn drm_format_mod_invalid() -> u64 {
    0x00ff_ffff_ffff_ffff
}

/// A format key with its value and, where it has them, its flags.
#[derive(Debug)]
pub struct KeyValue(pub FormatProperties, pub PodValue, pub Option<PropertyFlags>);

/// The flags of a property built from optional flags: none means empty.
pub open spec fn flags_or_empty(f: Option<PropertyFlags>) -> PropertyFlags {
    match f {
        Some(f) => f,
        None => PropertyFlags { bits: 0 },
    }
}

/// A key and value become a property with the same key and value; absent
/// flags become empty flags.
impl From<KeyValue> for Property {
    fn from(kv: KeyValue) -> (r: Property) {
        let flags = match kv.2 {
            Some(f) => f,
            None => PropertyFlags { bits: 0 },
        };
        Property { key: kv.0.0, flags, value: kv.1 }
    }
}

impl vstd::std_specs::convert::FromSpecImpl<KeyValue> for Property {
    open spec fn obeys_from_spec() -> bool {
        true
    }

    open spec fn from_spec(kv: KeyValue) -> Property {
        Property { key: kv.0.0, flags: flags_or_empty(kv.2), value: kv.1 }
    }
}

/// Every entry of `m` sits under the raw value of its own key.
pub open spec fn keys_consistent(m: Map<u32, KeyValue>) -> bool {
    forall|k: u32| #[trigger] m.contains_key(k) ==> m[k].0 == FormatProperties(k)
}

/// A description that stands for a set of format properties.
pub trait ToSpaProperties {
    /// The properties that the description stands for, by raw key.
    spec fn spa_properties(&self) -> Map<u32, KeyValue>;

    /// The properties that the description stands for, by raw key.
    fn to_spa_properties(&self) -> (r: HashMap<u32, KeyValue>)
        ensures
            r@ == self.spa_properties(),
            keys_consistent(r@),
    ;
}

} // verus!
