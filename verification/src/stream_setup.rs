//! The parameters of the streams this client opens: a generic stream, a video
//! stream, the default screen-capture stream and an audio stream.

use vstd::prelude::*;

use crate::drm::{modifier_code, Modifier};
use crate::events::{StreamEventsHandlerMetadata, ToStreamProcessor};
use crate::flags::{buffer_mask_all_bits, BufferMaskTypes, PropertyFlags, StreamFlags};
use crate::media::{
    audio_spa_properties, lemma_video_values_are_own_fields, video_spa_properties, AudioInfoRaw,
    VideoInfoRaw,
};
use crate::pod::{kind_of, Fraction, Id, PodKind, PodValue, Property, Rectangle};
use crate::properties::{set_entry, Properties};
use crate::spa::{
    FormatProperties, KeyValue, MediaSubtype, MediaType, ToSpaProperties, VideoFormat,
    VideoInterlaceMode, VIDEO_FORMAT_UNKNOWN, FORMAT_MEDIA_SUBTYPE,
    FORMAT_MEDIA_TYPE, FORMAT_VIDEO_FORMAT, FORMAT_VIDEO_MODIFIER, MEDIA_TYPE_AUDIO, MEDIA_TYPE_VIDEO, PARAM_BUFFERS,
    PARAM_BUFFERS_DATA_TYPE, PARAM_ENUM_FORMAT, TYPE_OBJECT_FORMAT, TYPE_OBJECT_PARAM_BUFFERS,
};
use crate::stream_builder::{
    describes_formats, lemma_listed_properties_describe, lists_map_values, with_invalid_modifier,
    StreamParams, StreamPipewireBuilder,
};

verus! {

/// The format values of a stream before its last format step: its media type
/// and subtype as ids, then every property its format stands for, each as the
/// only value of its key.
pub open spec fn stream_formats(
    media_type: MediaType,
    media_subtype: MediaSubtype,
    format: Map<u32, KeyValue>,
) -> Map<u32, Seq<KeyValue>> {
    Map::<u32, Seq<KeyValue>>::empty().insert(
        FORMAT_MEDIA_TYPE,
        seq![KeyValue(FormatProperties(FORMAT_MEDIA_TYPE), PodValue::Id(Id(media_type.0)), None)],
    ).insert(
        FORMAT_MEDIA_SUBTYPE,
        seq![KeyValue(FormatProperties(FORMAT_MEDIA_SUBTYPE), PodValue::Id(Id(media_subtype.0)), None)],
    ).union_prefer_right(format.map_values(|kv: KeyValue| seq![kv]))
}

/// The buffers parameter of a stream: its accepted data types, as an `Int`
/// mask with `flags`.
pub open spec fn stream_buffers(buffer_params: BufferMaskTypes, flags: PropertyFlags) -> Map<
    u32,
    Property,
> {
    Map::<u32, Property>::empty().insert(
        PARAM_BUFFERS_DATA_TYPE,
        Property { key: PARAM_BUFFERS_DATA_TYPE, flags, value: PodValue::Int(buffer_params.bits) },
    )
}

/// A format whose modifier, if it has one, is a `Long`.
pub open spec fn modifier_is_long(format: Map<u32, KeyValue>) -> bool {
    format.contains_key(FORMAT_VIDEO_MODIFIER) ==> kind_of(format[FORMAT_VIDEO_MODIFIER].1)
        == PodKind::Long
}

/// `r` holds the parameters of a stream connected with `flags`, created with
/// the properties `properties`, enumerating the formats of media type
/// `media_type`, subtype `media_subtype` and format `format`, and accepting
/// the buffer data types `buffer_params` under `buffer_flags`: what
/// `stream_params` gives on these arguments.
pub open spec fn stream_params_of(
    r: StreamParams,
    flags: StreamFlags,
    properties: Seq<(Seq<char>, Seq<char>)>,
    media_type: MediaType,
    media_subtype: MediaSubtype,
    format: Map<u32, KeyValue>,
    buffer_params: BufferMaskTypes,
    buffer_flags: PropertyFlags,
) -> bool {
    &&& r.flags == flags
    &&& r.properties.view() == properties
    &&& r.format.type_ == TYPE_OBJECT_FORMAT
    &&& r.format.id == PARAM_ENUM_FORMAT
    &&& describes_formats(
        r.format.properties@,
        with_invalid_modifier(stream_formats(media_type, media_subtype, format)),
    )
    &&& r.buffers.type_ == TYPE_OBJECT_PARAM_BUFFERS
    &&& r.buffers.id == PARAM_BUFFERS
    &&& lists_map_values(r.buffers.properties@, stream_buffers(buffer_params, buffer_flags))
}

/// The parameters of a stream: its flags and properties; its enumerated
/// formats, one property per key of its media type, subtype and format (the
/// modifier always offering `DRM_FORMAT_MOD_INVALID` too); and its accepted
/// buffer data types.
pub fn stream_params<P: ToSpaProperties>(
    flags: StreamFlags,
    properties: Properties,
    media_type: MediaType,
    media_subtype: MediaSubtype,
    format: P,
    buffer_params: BufferMaskTypes,
    buffer_flags: PropertyFlags,
) -> (r: StreamParams)
    requires
        properties.wf(),
        modifier_is_long(format.spa_properties()),
    ensures
        r.flags == flags,
        r.properties.view() == properties.view(),
        r.format.type_ == TYPE_OBJECT_FORMAT,
        r.format.id == PARAM_ENUM_FORMAT,
        describes_formats(
            r.format.properties@,
            with_invalid_modifier(stream_formats(media_type, media_subtype, format.spa_properties())),
        ),
        r.buffers.type_ == TYPE_OBJECT_PARAM_BUFFERS,
        r.buffers.id == PARAM_BUFFERS,
        lists_map_values(r.buffers.properties@, stream_buffers(buffer_params, buffer_flags)),
        stream_params_of(
            r,
            flags,
            properties.view(),
            media_type,
            media_subtype,
            format.spa_properties(),
            buffer_params,
            buffer_flags,
        ),
{
    let ghost fmt = format.spa_properties();
    let b = StreamPipewireBuilder::new().set_flags(flags).next();
    let b = b.set_properties(properties).next();
    let b = b.set_media_type(media_type).next();
    let b = b.set_media_subtype(media_subtype).next();
    let b = b.set_buffer_type(buffer_params, buffer_flags).next();
    let b = b.set_formats_params(format);
    let ghost m = b.formats();
    assert(m =~= stream_formats(media_type, media_subtype, fmt));
    assert(m.contains_key(FORMAT_VIDEO_MODIFIER) ==> m[FORMAT_VIDEO_MODIFIER] == seq![
        fmt[FORMAT_VIDEO_MODIFIER],
    ]);
    assert forall|k: u32| #[trigger] m.contains_key(k) && m[k].len() >= 2 implies false by {
        if fmt.contains_key(k) {
            assert(m[k] == seq![fmt[k]]);
        }
    }
    let ghost buffers = b.buffers();
    assert(buffers =~= stream_buffers(buffer_params, buffer_flags));
    let b = b.next();
    let ghost built = b.built();
    let r = b.build_params();
    proof {
        lemma_listed_properties_describe(r.format.properties@, built, with_invalid_modifier(m));
    }
    r
}


/// The properties of a stream of media type `media_type` (`"Video"` or
/// `"Audio"`), in the session manager's category `category` and role `role`.
pub open spec fn media_properties(media_type: Seq<char>, category: Seq<char>, role: Seq<char>) -> Seq<
    (Seq<char>, Seq<char>),
> {
    set_entry(
        set_entry(
            set_entry(Seq::empty(), "media.type"@, media_type),
            "media.category"@,
            category,
        ),
        "media.role"@,
        role,
    )
}

/// `media.type`, `media.category` and `media.role` set to `media_type`,
/// `category` and `role`.
fn media_properties_exec(media_type: &str, category: &str, role: &str) -> (r: Properties)
    ensures
        r.view() == media_properties(media_type@, category@, role@),
        r.wf(),
{
    let mut p = Properties::new();
    p.insert("media.type".to_owned(), media_type.to_owned());
    p.insert("media.category".to_owned(), category.to_owned());
    p.insert("media.role".to_owned(), role.to_owned());
    p
}

/// The flags every media stream of this client is connected with:
/// `AUTOCONNECT | MAP_BUFFERS | RT_PROCESS`.
pub open spec fn media_stream_flags() -> StreamFlags {
    StreamFlags { bits: 21 }
}

/// Media streams are connected with exactly `AUTOCONNECT` (1), `MAP_BUFFERS`
/// (4) and `RT_PROCESS` (16).
pub proof fn lemma_media_stream_flags()
    ensures
        media_stream_flags().bits == 1u32 | 4u32 | 16u32,
{
    assert(1u32 | 4u32 | 16u32 == 21u32) by (bit_vector);
}

fn media_stream_flags_exec() -> (r: StreamFlags)
    ensures r == media_stream_flags(),
{
    let r = StreamFlags::autoconnect().union(StreamFlags::map_buffers()).union(
        StreamFlags::rt_process(),
    );
    assert(1u32 | 4u32 | 16u32 == 21u32) by (bit_vector);
    r
}

/// A raw video format's modifier, when announced, is a `Long`.
#[verifier::spinoff_prover]
proof fn lemma_video_modifier_is_long(i: VideoInfoRaw)
    ensures modifier_is_long(video_spa_properties(i)),
{
}

/// The parameters of a video stream: connected with `AUTOCONNECT`,
/// `MAP_BUFFERS` and `RT_PROCESS`; properties `media.type` = `Video`,
/// `media.category` = `category`, `media.role` = `role`; media type video
/// with subtype `subtype` and the format `video_properties`; buffers of the
/// types `buffer`, a mandatory property.
pub fn video_stream_params(
    category: &str,
    role: &str,
    subtype: MediaSubtype,
    buffer: BufferMaskTypes,
    video_properties: VideoInfoRaw,
) -> (r: StreamParams)
    ensures
        r.flags == media_stream_flags(),
        r.properties.view() == media_properties("Video"@, category@, role@),
        r.format.type_ == TYPE_OBJECT_FORMAT,
        r.format.id == PARAM_ENUM_FORMAT,
        describes_formats(
            r.format.properties@,
            with_invalid_modifier(
                stream_formats(
                    MediaType(MEDIA_TYPE_VIDEO),
                    subtype,
                    video_spa_properties(video_properties),
                ),
            ),
        ),
        r.buffers.type_ == TYPE_OBJECT_PARAM_BUFFERS,
        r.buffers.id == PARAM_BUFFERS,
        lists_map_values(
            r.buffers.properties@,
            stream_buffers(buffer, PropertyFlags { bits: 8 }),
        ),
        stream_params_of(
            r,
            media_stream_flags(),
            media_properties("Video"@, category@, role@),
            MediaType(MEDIA_TYPE_VIDEO),
            subtype,
            video_spa_properties(video_properties),
            buffer,
            PropertyFlags { bits: 8 },
        ),
{
    proof {
        lemma_video_modifier_is_long(video_properties);
    }
    stream_params(
        media_stream_flags_exec(),
        media_properties_exec("Video", category, role),
        MediaType(MEDIA_TYPE_VIDEO),
        subtype,
        video_properties,
        buffer,
        PropertyFlags::mandatory(),
    )
}

/// The raw video format a handler announces: its pixel format and the code of
/// its modifier, everything else unset.
pub open spec fn default_video_info<M: StreamEventsHandlerMetadata>(metadata: M) -> VideoInfoRaw {
    VideoInfoRaw {
        format: metadata.video_format(),
        modifier: modifier_code(metadata.modifier()),
        ..video_info_unset()
    }
}

/// A raw video format with every field unset.
pub open spec fn video_info_unset() -> VideoInfoRaw {
    VideoInfoRaw {
        format: VideoFormat(VIDEO_FORMAT_UNKNOWN),
        flags: 0,
        modifier: 0,
        size: Rectangle { width: 0, height: 0 },
        framerate: Fraction { num: 0, denom: 0 },
        max_framerate: Fraction { num: 0, denom: 0 },
        views: 0,
        interlace_mode: VideoInterlaceMode(0),
        pixel_aspect_ratio: Fraction { num: 0, denom: 0 },
        multiview_mode: 0,
        multiview_flags: 0,
        chroma_site: 0,
        color_range: 0,
        color_matrix: 0,
        transfer_function: 0,
        color_primaries: 0,
    }
}

/// The parameters of the default screen-capture stream of a handler: a video
/// stream in category `Capture` and role `Screen`, with the handler's media
/// subtype and buffer types, and the raw format holding the handler's pixel
/// format and modifier.
pub fn default_video_stream_params<M: StreamEventsHandlerMetadata>(metadata: &M) -> (r: StreamParams)
    ensures
        r.flags == media_stream_flags(),
        r.properties.view() == media_properties("Video"@, "Capture"@, "Screen"@),
        r.format.type_ == TYPE_OBJECT_FORMAT,
        r.format.id == PARAM_ENUM_FORMAT,
        describes_formats(
            r.format.properties@,
            with_invalid_modifier(
                stream_formats(
                    MediaType(MEDIA_TYPE_VIDEO),
                    metadata.media_subtype(),
                    video_spa_properties(default_video_info(*metadata)),
                ),
            ),
        ),
        r.buffers.type_ == TYPE_OBJECT_PARAM_BUFFERS,
        r.buffers.id == PARAM_BUFFERS,
        lists_map_values(
            r.buffers.properties@,
            stream_buffers(metadata.buffer_mode(), PropertyFlags { bits: 8 }),
        ),
{
    let mut format = VideoInfoRaw::new();
    format.set_format(metadata.get_video_format());
    format.set_modifier(metadata.get_modifier().code());
    assert(format == default_video_info(*metadata));
    video_stream_params(
        "Capture",
        "Screen",
        metadata.get_media_subtype(),
        metadata.get_buffer_mode(),
        format,
    )
}

/// A raw audio format names no modifier.
proof fn lemma_audio_modifier_is_long(i: AudioInfoRaw)
    ensures modifier_is_long(audio_spa_properties(i)),
{
}

/// The parameters of an audio stream: connected like a video stream, with
/// `media.type` = `Audio`, `media.category` = `category` and `media.role` =
/// `role`; media type audio with subtype `subtype` and the raw audio format
/// `audio_properties`; accepting every buffer data type (a mandatory
/// property).
pub fn audio_stream_params(
    category: &str,
    role: &str,
    subtype: MediaSubtype,
    audio_properties: AudioInfoRaw,
) -> (r: StreamParams)
    ensures
        r.flags == media_stream_flags(),
        r.properties.view() == media_properties("Audio"@, category@, role@),
        r.format.type_ == TYPE_OBJECT_FORMAT,
        r.format.id == PARAM_ENUM_FORMAT,
        describes_formats(
            r.format.properties@,
            with_invalid_modifier(
                stream_formats(
                    MediaType(MEDIA_TYPE_AUDIO),
                    subtype,
                    audio_spa_properties(audio_properties),
                ),
            ),
        ),
        r.buffers.type_ == TYPE_OBJECT_PARAM_BUFFERS,
        r.buffers.id == PARAM_BUFFERS,
        lists_map_values(
            r.buffers.properties@,
            stream_buffers(BufferMaskTypes { bits: buffer_mask_all_bits() }, PropertyFlags { bits: 8 }),
        ),
        stream_params_of(
            r,
            media_stream_flags(),
            media_properties("Audio"@, category@, role@),
            MediaType(MEDIA_TYPE_AUDIO),
            subtype,
            audio_spa_properties(audio_properties),
            BufferMaskTypes { bits: buffer_mask_all_bits() },
            PropertyFlags { bits: 8 },
        ),
{
    proof {
        lemma_audio_modifier_is_long(audio_properties);
    }
    stream_params(
        media_stream_flags_exec(),
        media_properties_exec("Audio", category, role),
        MediaType(MEDIA_TYPE_AUDIO),
        subtype,
        audio_properties,
        BufferMaskTypes::all(),
        PropertyFlags::mandatory(),
    )
}


/// The parameters of the screen-capture stream of a frame processor: a video
/// stream in category `Capture` and role `Screen`, with the processor's media
/// subtype and buffer types, and the raw format holding only the processor's
/// pixel format (its modifier code left at 0, a linear layout).
pub fn processor_video_stream_params<P: ToStreamProcessor>(processor: &P) -> (r: StreamParams)
    ensures
        r.flags == media_stream_flags(),
        r.properties.view() == media_properties("Video"@, "Capture"@, "Screen"@),
        r.format.type_ == TYPE_OBJECT_FORMAT,
        r.format.id == PARAM_ENUM_FORMAT,
        describes_formats(
            r.format.properties@,
            with_invalid_modifier(
                stream_formats(
                    MediaType(MEDIA_TYPE_VIDEO),
                    processor.media_subtype(),
                    video_spa_properties(
                        VideoInfoRaw { format: processor.video_format(), ..video_info_unset() },
                    ),
                ),
            ),
        ),
        r.buffers.type_ == TYPE_OBJECT_PARAM_BUFFERS,
        r.buffers.id == PARAM_BUFFERS,
        lists_map_values(
            r.buffers.properties@,
            stream_buffers(processor.buffer_mode(), PropertyFlags { bits: 8 }),
        ),
{
    let mut format = VideoInfoRaw::new();
    format.set_format(processor.get_video_format());
    assert(format == VideoInfoRaw { format: processor.video_format(), ..video_info_unset() });
    video_stream_params(
        "Capture",
        "Screen",
        processor.get_media_subtype(),
        processor.get_buffer_mode(),
        format,
    )
}

/// The pixel format that the default stream of a handler, or the stream of a
/// processor, enumerates is the one the handler or processor announces: the
/// only value under `SPA_FORMAT_VIDEO_format`, as an id, whenever it is known.
pub proof fn lemma_stream_pixel_format_is_announced<M: StreamEventsHandlerMetadata, P: ToStreamProcessor>(
    handler: M,
    processor: P,
)
    ensures
        handler.video_format().0 != VIDEO_FORMAT_UNKNOWN ==> with_invalid_modifier(
            stream_formats(
                MediaType(MEDIA_TYPE_VIDEO),
                handler.media_subtype(),
                video_spa_properties(default_video_info(handler)),
            ),
        )[FORMAT_VIDEO_FORMAT] == seq![
            KeyValue(
                FormatProperties(FORMAT_VIDEO_FORMAT),
                PodValue::Id(Id(handler.video_format().0)),
                None,
            ),
        ],
        processor.video_format().0 != VIDEO_FORMAT_UNKNOWN ==> with_invalid_modifier(
            stream_formats(
                MediaType(MEDIA_TYPE_VIDEO),
                processor.media_subtype(),
                video_spa_properties(
                    VideoInfoRaw { format: processor.video_format(), ..video_info_unset() },
                ),
            ),
        )[FORMAT_VIDEO_FORMAT] == seq![
            KeyValue(
                FormatProperties(FORMAT_VIDEO_FORMAT),
                PodValue::Id(Id(processor.video_format().0)),
                None,
            ),
        ],
{
    lemma_video_values_are_own_fields(default_video_info(handler), FORMAT_VIDEO_FORMAT);
    lemma_video_values_are_own_fields(
        VideoInfoRaw { format: processor.video_format(), ..video_info_unset() },
        FORMAT_VIDEO_FORMAT,
    );
}

/// The modifiers that the default stream of a handler offers: a handler of
/// linear buffers offers the linear modifier (0, mandatory and not to be
/// fixated) and then `DRM_FORMAT_MOD_INVALID`; a handler without modifier
/// offers `DRM_FORMAT_MOD_INVALID` alone.
pub proof fn lemma_default_stream_modifiers<M: StreamEventsHandlerMetadata>(handler: M)
    ensures
        handler.modifier() == Modifier::Linear ==> with_invalid_modifier(
            stream_formats(
                MediaType(MEDIA_TYPE_VIDEO),
                handler.media_subtype(),
                video_spa_properties(default_video_info(handler)),
            ),
        )[FORMAT_VIDEO_MODIFIER] == seq![
            KeyValue(
                FormatProperties(FORMAT_VIDEO_MODIFIER),
                PodValue::Long(0),
                Some(PropertyFlags { bits: 24 }),
            ),
            KeyValue(
                FormatProperties(FORMAT_VIDEO_MODIFIER),
                PodValue::Long(0x00ff_ffff_ffff_ffff),
                None,
            ),
        ],
        handler.modifier() == Modifier::Invalid ==> with_invalid_modifier(
            stream_formats(
                MediaType(MEDIA_TYPE_VIDEO),
                handler.media_subtype(),
                video_spa_properties(default_video_info(handler)),
            ),
        )[FORMAT_VIDEO_MODIFIER] == seq![
            KeyValue(
                FormatProperties(FORMAT_VIDEO_MODIFIER),
                PodValue::Long(0x00ff_ffff_ffff_ffff),
                None,
            ),
        ],
{
    let i = default_video_info(handler);
    lemma_video_values_are_own_fields(i, FORMAT_VIDEO_MODIFIER);
    assert((0x00ff_ffff_ffff_ffffu64 as i64) == 0x00ff_ffff_ffff_ffffi64) by (bit_vector);
    assert((0u64 as i64) == 0i64) by (bit_vector);
}

} // verus!
