//! Raw video and audio descriptions, and the format properties they stand
//! for: a field is announced only when it holds a meaningful value.

use std::collections::HashMap;
use vstd::prelude::*;

use crate::drm::Modifier;
use crate::flags::PropertyFlags;
use crate::pod::{Fraction, Id, PodValue, Rectangle};
use crate::spa::{
    drm_format_mod_invalid, keys_consistent, AudioFormat, FormatProperties, KeyValue, ToSpaProperties,
    VideoFormat, VideoInterlaceMode, AUDIO_FORMAT_UNKNOWN, FORMAT_AUDIO_CHANNELS,
    FORMAT_AUDIO_FLAGS, FORMAT_AUDIO_FORMAT, FORMAT_AUDIO_POSITION, FORMAT_AUDIO_RATE,
    FORMAT_VIDEO_CHROMA_SITE, FORMAT_VIDEO_COLOR_MATRIX, FORMAT_VIDEO_COLOR_PRIMARIES,
    FORMAT_VIDEO_COLOR_RANGE, FORMAT_VIDEO_FORMAT, FORMAT_VIDEO_FRAMERATE,
    FORMAT_VIDEO_INTERLACE_MODE, FORMAT_VIDEO_MAX_FRAMERATE, FORMAT_VIDEO_MODIFIER,
    FORMAT_VIDEO_MULTIVIEW_FLAGS, FORMAT_VIDEO_MULTIVIEW_MODE, FORMAT_VIDEO_PIXEL_ASPECT_RATIO,
    FORMAT_VIDEO_SIZE, FORMAT_VIDEO_TRANSFER_FUNCTION, FORMAT_VIDEO_VIEWS,
    VIDEO_FORMAT_UNKNOWN, VIDEO_INTERLACE_MODE_PROGRESSIVE,
};

verus! {

broadcast use vstd::std_specs::hash::group_hash_axioms;

/// A raw video description (`spa_video_info_raw`).
#[derive(Clone, Copy, Debug)]
pub struct VideoInfoRaw {
    pub format: VideoFormat,
    pub flags: u32,
    pub modifier: u64,
    pub size: Rectangle,
    pub framerate: Fraction,
    pub max_framerate: Fraction,
    pub views: u32,
    pub interlace_mode: VideoInterlaceMode,
    pub pixel_aspect_ratio: Fraction,
    pub multiview_mode: i32,
    pub multiview_flags: u32,
    pub chroma_site: u32,
    pub color_range: u32,
    pub color_matrix: u32,
    pub transfer_function: u32,
    pub color_primaries: u32,
}

/// A raw audio description (`spa_audio_info_raw`).
#[derive(Clone, Copy, Debug)]
pub struct AudioInfoRaw {
    pub format: AudioFormat,
    pub flags: u32,
    pub rate: u32,
    pub channels: u32,
    pub position: [u32; 64],
}

/// `m` with the property `key` set to `value` and `flags` when `cond` holds;
/// `m` itself otherwise.
pub open spec fn put_if(
    m: Map<u32, KeyValue>,
    cond: bool,
    key: u32,
    value: PodValue,
    flags: Option<PropertyFlags>,
) -> Map<u32, KeyValue> {
    if cond {
        m.insert(key, KeyValue(FormatProperties(key), value, flags))
    } else {
        m
    }
}

/// A fraction is announced only when both its terms are positive.
pub open spec fn fraction_set(f: Fraction) -> bool {
    f.num > 0 && f.denom > 0
}

/// The format properties a raw video description stands for. The format,
/// interlace mode, views and the colour and multiview fields are announced as
/// ids when they are not zero; the size when both sides are positive; the
/// frame rates and the pixel aspect ratio when both terms are positive; the
/// modifier, as a `Long` marked mandatory and not to be fixated, when it is
/// not `DRM_FORMAT_MOD_INVALID`.
pub open spec fn video_spa_properties(i: VideoInfoRaw) -> Map<u32, KeyValue> {
    let m = Map::<u32, KeyValue>::empty();
    let m = put_if(m, i.format.0 != VIDEO_FORMAT_UNKNOWN, FORMAT_VIDEO_FORMAT,
        PodValue::Id(Id(i.format.0)), None);
    let m = put_if(m, i.modifier != drm_format_mod_invalid(), FORMAT_VIDEO_MODIFIER,
        PodValue::Long(i.modifier as i64), Some(PropertyFlags { bits: 24 }));
    let m = put_if(m, i.size.width > 0 && i.size.height > 0, FORMAT_VIDEO_SIZE,
        PodValue::Rectangle(i.size), None);
    let m = put_if(m, fraction_set(i.framerate), FORMAT_VIDEO_FRAMERATE,
        PodValue::Fraction(i.framerate), None);
    let m = put_if(m, fraction_set(i.max_framerate), FORMAT_VIDEO_MAX_FRAMERATE,
        PodValue::Fraction(i.max_framerate), None);
    let m = put_if(m, i.views != 0, FORMAT_VIDEO_VIEWS, PodValue::Id(Id(i.views)), None);
    let m = put_if(m, i.interlace_mode.0 != VIDEO_INTERLACE_MODE_PROGRESSIVE,
        FORMAT_VIDEO_INTERLACE_MODE, PodValue::Id(Id(i.interlace_mode.0)), None);
    let m = put_if(m, fraction_set(i.pixel_aspect_ratio), FORMAT_VIDEO_PIXEL_ASPECT_RATIO,
        PodValue::Fraction(i.pixel_aspect_ratio), None);
    let m = put_if(m, i.multiview_mode != 0, FORMAT_VIDEO_MULTIVIEW_MODE,
        PodValue::Id(Id(i.multiview_mode as u32)), None);
    let m = put_if(m, i.multiview_flags != 0, FORMAT_VIDEO_MULTIVIEW_FLAGS,
        PodValue::Id(Id(i.multiview_flags)), None);
    let m = put_if(m, i.chroma_site != 0, FORMAT_VIDEO_CHROMA_SITE,
        PodValue::Id(Id(i.chroma_site)), None);
    let m = put_if(m, i.color_range != 0, FORMAT_VIDEO_COLOR_RANGE,
        PodValue::Id(Id(i.color_range)), None);
    let m = put_if(m, i.color_matrix != 0, FORMAT_VIDEO_COLOR_MATRIX,
        PodValue::Id(Id(i.color_matrix)), None);
    let m = put_if(m, i.transfer_function != 0, FORMAT_VIDEO_TRANSFER_FUNCTION,
        PodValue::Id(Id(i.transfer_function)), None);
    put_if(m, i.color_primaries != 0, FORMAT_VIDEO_COLOR_PRIMARIES,
        PodValue::Id(Id(i.color_primaries)), None)
}

/// The entry a raw video description gives under the raw key `k`, if any:
/// the condition under which the key is announced, with its value and flags.
pub open spec fn video_entry(i: VideoInfoRaw, k: u32) -> Option<KeyValue> {
    let id = |cond: bool, v: u32|
        if cond {
            Some(KeyValue(FormatProperties(k), PodValue::Id(Id(v)), None))
        } else {
            None
        };
    let frac = |f: Fraction|
        if fraction_set(f) {
            Some(KeyValue(FormatProperties(k), PodValue::Fraction(f), None))
        } else {
            None
        };
    if k == FORMAT_VIDEO_FORMAT {
        id(i.format.0 != VIDEO_FORMAT_UNKNOWN, i.format.0)
    } else if k == FORMAT_VIDEO_MODIFIER {
        if i.modifier != drm_format_mod_invalid() {
            Some(
                KeyValue(
                    FormatProperties(k),
                    PodValue::Long(i.modifier as i64),
                    Some(PropertyFlags { bits: 24 }),
                ),
            )
        } else {
            None
        }
    } else if k == FORMAT_VIDEO_SIZE {
        if i.size.width > 0 && i.size.height > 0 {
            Some(KeyValue(FormatProperties(k), PodValue::Rectangle(i.size), None))
        } else {
            None
        }
    } else if k == FORMAT_VIDEO_FRAMERATE {
        frac(i.framerate)
    } else if k == FORMAT_VIDEO_MAX_FRAMERATE {
        frac(i.max_framerate)
    } else if k == FORMAT_VIDEO_VIEWS {
        id(i.views != 0, i.views)
    } else if k == FORMAT_VIDEO_INTERLACE_MODE {
        id(i.interlace_mode.0 != VIDEO_INTERLACE_MODE_PROGRESSIVE, i.interlace_mode.0)
    } else if k == FORMAT_VIDEO_PIXEL_ASPECT_RATIO {
        frac(i.pixel_aspect_ratio)
    } else if k == FORMAT_VIDEO_MULTIVIEW_MODE {
        id(i.multiview_mode != 0, i.multiview_mode as u32)
    } else if k == FORMAT_VIDEO_MULTIVIEW_FLAGS {
        id(i.multiview_flags != 0, i.multiview_flags)
    } else if k == FORMAT_VIDEO_CHROMA_SITE {
        id(i.chroma_site != 0, i.chroma_site)
    } else if k == FORMAT_VIDEO_COLOR_RANGE {
        id(i.color_range != 0, i.color_range)
    } else if k == FORMAT_VIDEO_COLOR_MATRIX {
        id(i.color_matrix != 0, i.color_matrix)
    } else if k == FORMAT_VIDEO_TRANSFER_FUNCTION {
        id(i.transfer_function != 0, i.transfer_function)
    } else if k == FORMAT_VIDEO_COLOR_PRIMARIES {
        id(i.color_primaries != 0, i.color_primaries)
    } else {
        None
    }
}

/// Key by key, the format properties of a raw video description: a key is
/// announced exactly when its field is set (a known format, a modifier other
/// than `DRM_FORMAT_MOD_INVALID`, a size with both sides positive, fractions
/// with both terms positive, other fields not zero), under its own key, with
/// the modifier as a `Long` marked mandatory and not to be fixated, the size
/// and fractions as they are, every other field as an id, and no flags but
/// the modifier's; no other key is announced.
#[verifier::rlimit(50)]
pub proof fn lemma_video_properties_by_key(i: VideoInfoRaw, k: u32)
    ensures
        video_spa_properties(i).contains_key(k) <==> video_entry(i, k) is Some,
        video_spa_properties(i).contains_key(k) ==> video_spa_properties(i)[k] == video_entry(
            i,
            k,
        )->Some_0,
{
}

/// Some channel position is set.
pub open spec fn positions_set(p: Seq<u32>) -> bool {
    exists|i: int| 0 <= i < p.len() && p[i] != 0
}

/// The format properties a raw audio description stands for: the format when
/// it is known, the flags, rate and channel count when they are not zero, and
/// the first channel position when any position is set; all but the format are
/// announced as ids.
pub open spec fn audio_spa_properties(i: AudioInfoRaw) -> Map<u32, KeyValue> {
    let m = Map::<u32, KeyValue>::empty();
    let m = put_if(m, i.format.0 != AUDIO_FORMAT_UNKNOWN, FORMAT_AUDIO_FORMAT,
        PodValue::Id(Id(i.format.0)), None);
    let m = put_if(m, i.flags != 0, FORMAT_AUDIO_FLAGS, PodValue::Id(Id(i.flags)), None);
    let m = put_if(m, i.rate != 0, FORMAT_AUDIO_RATE, PodValue::Id(Id(i.rate)), None);
    let m = put_if(m, i.channels != 0, FORMAT_AUDIO_CHANNELS, PodValue::Id(Id(i.channels)),
        None);
    put_if(m, positions_set(i.position@), FORMAT_AUDIO_POSITION,
        PodValue::Id(Id(i.position@[0])), None)
}

/// What a raw video description announces, field by field: each key is
/// announced exactly when its own field is set, and then holds that field
/// (the format, interlace mode, views and the colour and multiview fields as
/// ids, the size and the fractions unchanged, the modifier as a `Long` marked
/// mandatory and not to be fixated, every other value without flags); no
/// other key is announced.
#[verifier::rlimit(50)]
pub proof fn lemma_video_values_are_own_fields(i: VideoInfoRaw, k: u32)
    ensures
        video_spa_properties(i).contains_key(FORMAT_VIDEO_FORMAT) <==> (i.format.0 != VIDEO_FORMAT_UNKNOWN),
        video_spa_properties(i).contains_key(FORMAT_VIDEO_FORMAT) ==> video_spa_properties(i)[FORMAT_VIDEO_FORMAT]
            == KeyValue(FormatProperties(FORMAT_VIDEO_FORMAT), PodValue::Id(Id(i.format.0)), None),
        video_spa_properties(i).contains_key(FORMAT_VIDEO_MODIFIER) <==> (i.modifier != drm_format_mod_invalid()),
        video_spa_properties(i).contains_key(FORMAT_VIDEO_MODIFIER) ==> video_spa_properties(i)[FORMAT_VIDEO_MODIFIER]
            == KeyValue(FormatProperties(FORMAT_VIDEO_MODIFIER), PodValue::Long(i.modifier as i64), Some(PropertyFlags { bits: 24 })),
        video_spa_properties(i).contains_key(FORMAT_VIDEO_SIZE) <==> (i.size.width > 0 && i.size.height > 0),
        video_spa_properties(i).contains_key(FORMAT_VIDEO_SIZE) ==> video_spa_properties(i)[FORMAT_VIDEO_SIZE]
            == KeyValue(FormatProperties(FORMAT_VIDEO_SIZE), PodValue::Rectangle(i.size), None),
        video_spa_properties(i).contains_key(FORMAT_VIDEO_FRAMERATE) <==> (i.framerate.num > 0 && i.framerate.denom > 0),
        video_spa_properties(i).contains_key(FORMAT_VIDEO_FRAMERATE) ==> video_spa_properties(i)[FORMAT_VIDEO_FRAMERATE]
            == KeyValue(FormatProperties(FORMAT_VIDEO_FRAMERATE), PodValue::Fraction(i.framerate), None),
        video_spa_properties(i).contains_key(FORMAT_VIDEO_MAX_FRAMERATE) <==> (i.max_framerate.num > 0 && i.max_framerate.denom > 0),
        video_spa_properties(i).contains_key(FORMAT_VIDEO_MAX_FRAMERATE) ==> video_spa_properties(i)[FORMAT_VIDEO_MAX_FRAMERATE]
            == KeyValue(FormatProperties(FORMAT_VIDEO_MAX_FRAMERATE), PodValue::Fraction(i.max_framerate), None),
        video_spa_properties(i).contains_key(FORMAT_VIDEO_VIEWS) <==> (i.views != 0),
        video_spa_properties(i).contains_key(FORMAT_VIDEO_VIEWS) ==> video_spa_properties(i)[FORMAT_VIDEO_VIEWS]
            == KeyValue(FormatProperties(FORMAT_VIDEO_VIEWS), PodValue::Id(Id(i.views)), None),
        video_spa_properties(i).contains_key(FORMAT_VIDEO_INTERLACE_MODE) <==> (i.interlace_mode.0 != VIDEO_INTERLACE_MODE_PROGRESSIVE),
        video_spa_properties(i).contains_key(FORMAT_VIDEO_INTERLACE_MODE) ==> video_spa_properties(i)[FORMAT_VIDEO_INTERLACE_MODE]
            == KeyValue(FormatProperties(FORMAT_VIDEO_INTERLACE_MODE), PodValue::Id(Id(i.interlace_mode.0)), None),
        video_spa_properties(i).contains_key(FORMAT_VIDEO_PIXEL_ASPECT_RATIO) <==> (i.pixel_aspect_ratio.num > 0 && i.pixel_aspect_ratio.denom > 0),
        video_spa_properties(i).contains_key(FORMAT_VIDEO_PIXEL_ASPECT_RATIO) ==> video_spa_properties(i)[FORMAT_VIDEO_PIXEL_ASPECT_RATIO]
            == KeyValue(FormatProperties(FORMAT_VIDEO_PIXEL_ASPECT_RATIO), PodValue::Fraction(i.pixel_aspect_ratio), None),
        video_spa_properties(i).contains_key(FORMAT_VIDEO_MULTIVIEW_MODE) <==> (i.multiview_mode != 0),
        video_spa_properties(i).contains_key(FORMAT_VIDEO_MULTIVIEW_MODE) ==> video_spa_properties(i)[FORMAT_VIDEO_MULTIVIEW_MODE]
            == KeyValue(FormatProperties(FORMAT_VIDEO_MULTIVIEW_MODE), PodValue::Id(Id(i.multiview_mode as u32)), None),
        video_spa_properties(i).contains_key(FORMAT_VIDEO_MULTIVIEW_FLAGS) <==> (i.multiview_flags != 0),
        video_spa_properties(i).contains_key(FORMAT_VIDEO_MULTIVIEW_FLAGS) ==> video_spa_properties(i)[FORMAT_VIDEO_MULTIVIEW_FLAGS]
            == KeyValue(FormatProperties(FORMAT_VIDEO_MULTIVIEW_FLAGS), PodValue::Id(Id(i.multiview_flags)), None),
        video_spa_properties(i).contains_key(FORMAT_VIDEO_CHROMA_SITE) <==> (i.chroma_site != 0),
        video_spa_properties(i).contains_key(FORMAT_VIDEO_CHROMA_SITE) ==> video_spa_properties(i)[FORMAT_VIDEO_CHROMA_SITE]
            == KeyValue(FormatProperties(FORMAT_VIDEO_CHROMA_SITE), PodValue::Id(Id(i.chroma_site)), None),
        video_spa_properties(i).contains_key(FORMAT_VIDEO_COLOR_RANGE) <==> (i.color_range != 0),
        video_spa_properties(i).contains_key(FORMAT_VIDEO_COLOR_RANGE) ==> video_spa_properties(i)[FORMAT_VIDEO_COLOR_RANGE]
            == KeyValue(FormatProperties(FORMAT_VIDEO_COLOR_RANGE), PodValue::Id(Id(i.color_range)), None),
        video_spa_properties(i).contains_key(FORMAT_VIDEO_COLOR_MATRIX) <==> (i.color_matrix != 0),
        video_spa_properties(i).contains_key(FORMAT_VIDEO_COLOR_MATRIX) ==> video_spa_properties(i)[FORMAT_VIDEO_COLOR_MATRIX]
            == KeyValue(FormatProperties(FORMAT_VIDEO_COLOR_MATRIX), PodValue::Id(Id(i.color_matrix)), None),
        video_spa_properties(i).contains_key(FORMAT_VIDEO_TRANSFER_FUNCTION) <==> (i.transfer_function != 0),
        video_spa_properties(i).contains_key(FORMAT_VIDEO_TRANSFER_FUNCTION) ==> video_spa_properties(i)[FORMAT_VIDEO_TRANSFER_FUNCTION]
            == KeyValue(FormatProperties(FORMAT_VIDEO_TRANSFER_FUNCTION), PodValue::Id(Id(i.transfer_function)), None),
        video_spa_properties(i).contains_key(FORMAT_VIDEO_COLOR_PRIMARIES) <==> (i.color_primaries != 0),
        video_spa_properties(i).contains_key(FORMAT_VIDEO_COLOR_PRIMARIES) ==> video_spa_properties(i)[FORMAT_VIDEO_COLOR_PRIMARIES]
            == KeyValue(FormatProperties(FORMAT_VIDEO_COLOR_PRIMARIES), PodValue::Id(Id(i.color_primaries)), None),
        video_spa_properties(i).contains_key(k) ==> (k == FORMAT_VIDEO_FORMAT || k == FORMAT_VIDEO_MODIFIER || k == FORMAT_VIDEO_SIZE || k == FORMAT_VIDEO_FRAMERATE || k == FORMAT_VIDEO_MAX_FRAMERATE || k == FORMAT_VIDEO_VIEWS || k == FORMAT_VIDEO_INTERLACE_MODE || k == FORMAT_VIDEO_PIXEL_ASPECT_RATIO || k == FORMAT_VIDEO_MULTIVIEW_MODE || k == FORMAT_VIDEO_MULTIVIEW_FLAGS || k == FORMAT_VIDEO_CHROMA_SITE || k == FORMAT_VIDEO_COLOR_RANGE || k == FORMAT_VIDEO_COLOR_MATRIX || k == FORMAT_VIDEO_TRANSFER_FUNCTION || k == FORMAT_VIDEO_COLOR_PRIMARIES),
{
}

/// The entry a raw audio description gives under the raw key `k`, if any:
/// the condition under which the key is announced, with its value.
pub open spec fn audio_entry(i: AudioInfoRaw, k: u32) -> Option<KeyValue> {
    let id = |cond: bool, v: u32|
        if cond {
            Some(KeyValue(FormatProperties(k), PodValue::Id(Id(v)), None))
        } else {
            None
        };
    if k == FORMAT_AUDIO_FORMAT {
        id(i.format.0 != AUDIO_FORMAT_UNKNOWN, i.format.0)
    } else if k == FORMAT_AUDIO_FLAGS {
        id(i.flags != 0, i.flags)
    } else if k == FORMAT_AUDIO_RATE {
        id(i.rate != 0, i.rate)
    } else if k == FORMAT_AUDIO_CHANNELS {
        id(i.channels != 0, i.channels)
    } else if k == FORMAT_AUDIO_POSITION {
        id(positions_set(i.position@), i.position@[0])
    } else {
        None
    }
}

/// Key by key, the format properties of a raw audio description: a key is
/// announced exactly when its field is set (a known format, flags, rate or
/// channel count not zero, some channel position set), under its own key, as
/// an id without flags (the first position for the positions); no other key
/// is announced.
pub proof fn lemma_audio_properties_by_key(i: AudioInfoRaw, k: u32)
    ensures
        audio_spa_properties(i).contains_key(k) <==> audio_entry(i, k) is Some,
        audio_spa_properties(i).contains_key(k) ==> audio_spa_properties(i)[k] == audio_entry(
            i,
            k,
        )->Some_0,
{
}

/// What a raw audio description announces, field by field: each key is
/// announced exactly when its own field is set (for the positions, when any
/// of the 64 is), and then holds that field as an id without flags (the
/// first position for the positions); no other key is announced.
pub proof fn lemma_audio_values_are_own_fields(i: AudioInfoRaw, k: u32)
    ensures
        audio_spa_properties(i).contains_key(FORMAT_AUDIO_FORMAT) <==> (i.format.0 != AUDIO_FORMAT_UNKNOWN),
        audio_spa_properties(i).contains_key(FORMAT_AUDIO_FORMAT) ==> audio_spa_properties(i)[FORMAT_AUDIO_FORMAT]
            == KeyValue(FormatProperties(FORMAT_AUDIO_FORMAT), PodValue::Id(Id(i.format.0)), None),
        audio_spa_properties(i).contains_key(FORMAT_AUDIO_FLAGS) <==> (i.flags != 0),
        audio_spa_properties(i).contains_key(FORMAT_AUDIO_FLAGS) ==> audio_spa_properties(i)[FORMAT_AUDIO_FLAGS]
            == KeyValue(FormatProperties(FORMAT_AUDIO_FLAGS), PodValue::Id(Id(i.flags)), None),
        audio_spa_properties(i).contains_key(FORMAT_AUDIO_RATE) <==> (i.rate != 0),
        audio_spa_properties(i).contains_key(FORMAT_AUDIO_RATE) ==> audio_spa_properties(i)[FORMAT_AUDIO_RATE]
            == KeyValue(FormatProperties(FORMAT_AUDIO_RATE), PodValue::Id(Id(i.rate)), None),
        audio_spa_properties(i).contains_key(FORMAT_AUDIO_CHANNELS) <==> (i.channels != 0),
        audio_spa_properties(i).contains_key(FORMAT_AUDIO_CHANNELS) ==> audio_spa_properties(i)[FORMAT_AUDIO_CHANNELS]
            == KeyValue(FormatProperties(FORMAT_AUDIO_CHANNELS), PodValue::Id(Id(i.channels)), None),
        audio_spa_properties(i).contains_key(FORMAT_AUDIO_POSITION) <==> (exists|j: int| 0 <= j < 64 && i.position@[j] != 0),
        audio_spa_properties(i).contains_key(FORMAT_AUDIO_POSITION) ==> audio_spa_properties(i)[FORMAT_AUDIO_POSITION]
            == KeyValue(FormatProperties(FORMAT_AUDIO_POSITION), PodValue::Id(Id(i.position@[0])), None),
        audio_spa_properties(i).contains_key(k) ==> (k == FORMAT_AUDIO_FORMAT || k == FORMAT_AUDIO_FLAGS || k == FORMAT_AUDIO_RATE || k == FORMAT_AUDIO_CHANNELS || k == FORMAT_AUDIO_POSITION),
{
    assert(i.position@.len() == 64);
}

/// Sets the property `key` of `m` to `value` and `flags` when `cond` holds.
fn put_if_exec(
    m: &mut HashMap<u32, KeyValue>,
    cond: bool,
    key: u32,
    value: PodValue,
    flags: Option<PropertyFlags>,
)
    requires
        keys_consistent(old(m)@),
    ensures
        final(m)@ == put_if(old(m)@, cond, key, value, flags),
        keys_consistent(final(m)@),
{
    if cond {
        m.insert(key, KeyValue(FormatProperties(key), value, flags));
    }
}

impl VideoInfoRaw {
    /// A description with every field unset: unknown format, zero sizes and
    /// rates, no modifier code.
    pub fn new() -> (r: Self)
        ensures
            r.format == VideoFormat(VIDEO_FORMAT_UNKNOWN),
            r.flags == 0,
            r.modifier == 0,
            r.size == (Rectangle { width: 0, height: 0 }),
            r.framerate == (Fraction { num: 0, denom: 0 }),
            r.max_framerate == (Fraction { num: 0, denom: 0 }),
            r.views == 0,
            r.interlace_mode == VideoInterlaceMode(0),
            r.pixel_aspect_ratio == (Fraction { num: 0, denom: 0 }),
            r.multiview_mode == 0,
            r.multiview_flags == 0,
            r.chroma_site == 0,
            r.color_range == 0,
            r.color_matrix == 0,
            r.transfer_function == 0,
            r.color_primaries == 0,
    {
        VideoInfoRaw {
            format: VideoFormat(VIDEO_FORMAT_UNKNOWN),
            flags: 0,
            modifier: 0,
            size: Rectangle { width: 0, height: 0 },
            framerate: Fraction { num: 0, denom: 0 },
            max_framerate: Fraction { num: 0, denom: 0 },
            views: 0,
            interlace_mode: VideoInterlaceMode(0),
            pixel_aspect_ratio: Fraction { num: 0, denom: 0 },
            multiview_mode: 0,
            multiview_flags: 0,
            chroma_site: 0,
            color_range: 0,
            color_matrix: 0,
            transfer_function: 0,
            color_primaries: 0,
        }
    }

    /// Sets the pixel format.
    pub fn set_format(&mut self, format: VideoFormat)
        ensures *final(self) == (VideoInfoRaw { format, ..*old(self) }),
    {
        self.format = format;
    }

    /// Sets the modifier code.
    pub fn set_modifier(&mut self, modifier: u64)
        ensures *final(self) == (VideoInfoRaw { modifier, ..*old(self) }),
    {
        self.modifier = modifier;
    }
}

impl ToSpaProperties for VideoInfoRaw {
    open spec fn spa_properties(&self) -> Map<u32, KeyValue> {
        video_spa_properties(*self)
    }

    #[verifier::rlimit(40)]
    fn to_spa_properties(&self) -> (r: HashMap<u32, KeyValue>) {
        let mut m: HashMap<u32, KeyValue> = HashMap::new();
        put_if_exec(&mut m, self.format.0 != VIDEO_FORMAT_UNKNOWN, FORMAT_VIDEO_FORMAT,
            PodValue::Id(Id(self.format.0)), None);
        let invalid: u64 = Modifier::Invalid.code();
        #[verifier::truncate]
        let modifier_signed: i64 = self.modifier as i64;
        put_if_exec(&mut m, self.modifier != invalid, FORMAT_VIDEO_MODIFIER,
            PodValue::Long(modifier_signed),
            Some(PropertyFlags::mandatory().union(PropertyFlags::dont_fixate())));
        assert(8u32 | 16u32 == 24u32) by (bit_vector);
        put_if_exec(&mut m, self.size.width > 0 && self.size.height > 0, FORMAT_VIDEO_SIZE,
            PodValue::Rectangle(self.size), None);
        put_if_exec(&mut m, self.framerate.num > 0 && self.framerate.denom > 0,
            FORMAT_VIDEO_FRAMERATE, PodValue::Fraction(self.framerate), None);
        put_if_exec(&mut m, self.max_framerate.num > 0 && self.max_framerate.denom > 0,
            FORMAT_VIDEO_MAX_FRAMERATE, PodValue::Fraction(self.max_framerate), None);
        put_if_exec(&mut m, self.views != 0, FORMAT_VIDEO_VIEWS, PodValue::Id(Id(self.views)),
            None);
        put_if_exec(&mut m, self.interlace_mode.0 != VIDEO_INTERLACE_MODE_PROGRESSIVE,
            FORMAT_VIDEO_INTERLACE_MODE, PodValue::Id(Id(self.interlace_mode.0)), None);
        put_if_exec(&mut m,
            self.pixel_aspect_ratio.num > 0 && self.pixel_aspect_ratio.denom > 0,
            FORMAT_VIDEO_PIXEL_ASPECT_RATIO, PodValue::Fraction(self.pixel_aspect_ratio), None);
        #[verifier::truncate]
        let mv_mode: u32 = self.multiview_mode as u32;
        put_if_exec(&mut m, self.multiview_mode != 0, FORMAT_VIDEO_MULTIVIEW_MODE,
            PodValue::Id(Id(mv_mode)), None);
        put_if_exec(&mut m, self.multiview_flags != 0, FORMAT_VIDEO_MULTIVIEW_FLAGS,
            PodValue::Id(Id(self.multiview_flags)), None);
        put_if_exec(&mut m, self.chroma_site != 0, FORMAT_VIDEO_CHROMA_SITE,
            PodValue::Id(Id(self.chroma_site)), None);
        put_if_exec(&mut m, self.color_range != 0, FORMAT_VIDEO_COLOR_RANGE,
            PodValue::Id(Id(self.color_range)), None);
        put_if_exec(&mut m, self.color_matrix != 0, FORMAT_VIDEO_COLOR_MATRIX,
            PodValue::Id(Id(self.color_matrix)), None);
        put_if_exec(&mut m, self.transfer_function != 0, FORMAT_VIDEO_TRANSFER_FUNCTION,
            PodValue::Id(Id(self.transfer_function)), None);
        put_if_exec(&mut m, self.color_primaries != 0, FORMAT_VIDEO_COLOR_PRIMARIES,
            PodValue::Id(Id(self.color_primaries)), None);
        m
    }
}

impl AudioInfoRaw {
    /// A description with an unknown format, no channel positions
    /// (`SPA_AUDIO_FLAG_UNPOSITIONED`), and zero rate and channels.
    pub fn new() -> (r: Self)
        ensures
            r.format == AudioFormat(AUDIO_FORMAT_UNKNOWN),
            r.flags == 1,
            r.rate == 0,
            r.channels == 0,
            forall|i: int| 0 <= i < 64 ==> r.position@[i] == 0,
    {
        AudioInfoRaw {
            format: AudioFormat(AUDIO_FORMAT_UNKNOWN),
            flags: 1,
            rate: 0,
            channels: 0,
            position: [0u32; 64],
        }
    }
}

impl ToSpaProperties for AudioInfoRaw {
    open spec fn spa_properties(&self) -> Map<u32, KeyValue> {
        audio_spa_properties(*self)
    }

    fn to_spa_properties(&self) -> (r: HashMap<u32, KeyValue>) {
        let mut m: HashMap<u32, KeyValue> = HashMap::new();
        put_if_exec(&mut m, self.format.0 != AUDIO_FORMAT_UNKNOWN, FORMAT_AUDIO_FORMAT,
            PodValue::Id(Id(self.format.0)), None);
        put_if_exec(&mut m, self.flags != 0, FORMAT_AUDIO_FLAGS, PodValue::Id(Id(self.flags)),
            None);
        put_if_exec(&mut m, self.rate != 0, FORMAT_AUDIO_RATE, PodValue::Id(Id(self.rate)), None);
        put_if_exec(&mut m, self.channels != 0, FORMAT_AUDIO_CHANNELS,
            PodValue::Id(Id(self.channels)), None);
        let mut any: bool = false;
        let mut i: usize = 0;
        while i < 64
            invariant
                i <= 64,
                any == (exists|j: int| 0 <= j < i && self.position@[j] != 0),
            decreases 64 - i,
        {
            if self.position[i] != 0 {
                any = true;
            }
            i = i + 1;
        }
        put_if_exec(&mut m, any, FORMAT_AUDIO_POSITION, PodValue::Id(Id(self.position[0])), None);
        m
    }
}

} // verus!
