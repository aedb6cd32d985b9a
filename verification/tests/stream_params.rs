use pipewire_yolo_client::drm::Modifier;
use pipewire_yolo_client::events::{
    StreamEventsHandler, StreamEventsHandlerMetadata, StreamProcessorPipewireBuilder,
    ToStreamProcessor, VideoEventsHandlerCPU, VideoEventsHandlerGPU, VideoProcessorCPU,
    VideoProcessorGPU,
};
use pipewire_yolo_client::flags::{BufferMaskTypes, PropertyFlags, StreamFlags};
use pipewire_yolo_client::media::{AudioInfoRaw, VideoInfoRaw};
use pipewire_yolo_client::pod::{Choice, ChoiceEnum, ChoiceValue, Fraction, Id, PodValue, Property, Rectangle};
use pipewire_yolo_client::properties::Properties;
use pipewire_yolo_client::spa::{
    FormatProperties, KeyValue, MediaSubtype, MediaType, ToSpaProperties, VideoFormat,
    FORMAT_AUDIO_CHANNELS, FORMAT_AUDIO_FLAGS, FORMAT_AUDIO_POSITION, FORMAT_AUDIO_RATE,
    FORMAT_MEDIA_SUBTYPE, FORMAT_MEDIA_TYPE, FORMAT_VIDEO_FORMAT, FORMAT_VIDEO_FRAMERATE,
    FORMAT_VIDEO_MODIFIER, FORMAT_VIDEO_SIZE, FORMAT_VIDEO_VIEWS, MEDIA_SUBTYPE_RAW,
    MEDIA_TYPE_VIDEO, PARAM_BUFFERS, PARAM_BUFFERS_DATA_TYPE, PARAM_ENUM_FORMAT,
    TYPE_OBJECT_FORMAT, TYPE_OBJECT_PARAM_BUFFERS, VIDEO_FORMAT_BGRA,
};
use pipewire_yolo_client::stream_builder::StreamPipewireBuilder;
use pipewire_yolo_client::stream_setup::{
    audio_stream_params, default_video_stream_params, stream_params, video_stream_params,
};

const INVALID: i64 = 0x00ff_ffff_ffff_ffff;

fn find(props: &[Property], key: u32) -> &Property {
    props.iter().find(|p| p.key == key).expect("property is missing")
}

#[test]
fn modifier_codes_are_the_drm_ones() {
    assert_eq!(Modifier::Invalid.code(), 0x00ff_ffff_ffff_ffff);
    assert_eq!(Modifier::Linear.code(), 0);
}

#[test]
fn unset_video_info_announces_only_its_zero_modifier() {
    let props = VideoInfoRaw::new().to_spa_properties();
    assert_eq!(props.len(), 1);
    assert!(matches!(props[&FORMAT_VIDEO_MODIFIER].1, PodValue::Long(0)));
    let mut info = VideoInfoRaw::new();
    info.set_modifier(Modifier::Invalid.code());
    assert!(info.to_spa_properties().is_empty());
}

#[test]
fn video_info_announces_meaningful_fields() {
    let mut info = VideoInfoRaw::new();
    info.set_format(VideoFormat(VIDEO_FORMAT_BGRA));
    info.size = Rectangle { width: 1920, height: 0 };
    info.framerate = Fraction { num: 60, denom: 1 };
    info.views = 2;
    let props = info.to_spa_properties();
    assert_eq!(props.len(), 4);
    assert!(matches!(props[&FORMAT_VIDEO_FORMAT].1, PodValue::Id(Id(12))));
    assert!(props[&FORMAT_VIDEO_FORMAT].2.is_none());
    assert!(matches!(props[&FORMAT_VIDEO_FRAMERATE].1, PodValue::Fraction(Fraction { num: 60, denom: 1 })));
    assert!(matches!(props[&FORMAT_VIDEO_VIEWS].1, PodValue::Id(Id(2))));
    assert!(!props.contains_key(&FORMAT_VIDEO_SIZE));
    // A zero modifier is still a modifier (linear); only the invalid one is left out.
    match &props[&FORMAT_VIDEO_MODIFIER] {
        KeyValue(FormatProperties(FORMAT_VIDEO_MODIFIER), PodValue::Long(0), Some(f)) => assert_eq!(f.bits, 8 | 16),
        _ => panic!("modifier is not a mandatory, unfixated long"),
    }
    info.set_modifier(Modifier::Invalid.code());
    assert!(!info.to_spa_properties().contains_key(&FORMAT_VIDEO_MODIFIER));
}

#[test]
fn audio_info_announces_set_fields_as_ids() {
    let mut info = AudioInfoRaw::new();
    let props = info.to_spa_properties();
    assert_eq!(props.len(), 1);
    assert!(matches!(props[&FORMAT_AUDIO_FLAGS].1, PodValue::Id(Id(1))));
    info.rate = 48000;
    info.channels = 2;
    info.position[3] = 5;
    let props = info.to_spa_properties();
    assert!(matches!(props[&FORMAT_AUDIO_RATE].1, PodValue::Id(Id(48000))));
    assert!(matches!(props[&FORMAT_AUDIO_CHANNELS].1, PodValue::Id(Id(2))));
    assert!(matches!(props[&FORMAT_AUDIO_POSITION].1, PodValue::Id(Id(0))));
}

#[test]
fn stream_flags_are_added_removed_and_set() {
    let b = StreamPipewireBuilder::new()
        .add_flag(StreamFlags::autoconnect())
        .add_flag(StreamFlags::map_buffers())
        .remove_flags(StreamFlags::autoconnect());
    let b = b.next().next().next().next().next();
    let p = b.next().build_params();
    assert_eq!(p.flags.bits(), 4);
    let b = StreamPipewireBuilder::new().add_flag(StreamFlags::driver()).set_flags(StreamFlags::inactive());
    assert_eq!(b.next().next().next().next().next().next().build_params().flags.bits(), 2);
}

#[test]
fn later_properties_replace_earlier_ones() {
    let b = StreamPipewireBuilder::new().next();
    let b = b.add_property("media.role".to_string(), "Screen".to_string());
    let b = b.add_property("media.role".to_string(), "Camera".to_string());
    let b = b.add_property("media.type".to_string(), "Video".to_string());
    let p = b.next().next().next().next().next().build_params();
    assert_eq!(p.properties.len(), 2);
    assert_eq!(p.properties.get("media.role").unwrap(), "Camera");
    assert_eq!(p.properties.get("media.type").unwrap(), "Video");
    assert!(p.properties.get("media.category").is_none());
}

#[test]
fn simple_values_of_one_key_become_an_enumeration() {
    let b = StreamPipewireBuilder::new().next().next();
    let b = b.set_media_type(MediaType(MEDIA_TYPE_VIDEO)).next();
    let b = b.set_media_subtype(MediaSubtype(MEDIA_SUBTYPE_RAW)).next();
    let b = b.set_buffer_type(BufferMaskTypes::mem_fd(), PropertyFlags::mandatory()).next();
    let b = b.add_simple_format_param(KeyValue(FormatProperties(FORMAT_VIDEO_FORMAT), PodValue::Id(Id(12)), Some(PropertyFlags::hint_dict())));
    let b = b.add_simple_format_param(KeyValue(FormatProperties(FORMAT_VIDEO_FORMAT), PodValue::Id(Id(8)), None));
    let b = b.add_simple_format_param(KeyValue(FormatProperties(FORMAT_VIDEO_MODIFIER), PodValue::from(0u64), None));
    let p = b.next().build_params();
    assert_eq!((p.format.type_, p.format.id), (TYPE_OBJECT_FORMAT, PARAM_ENUM_FORMAT));
    assert_eq!((p.buffers.type_, p.buffers.id), (TYPE_OBJECT_PARAM_BUFFERS, PARAM_BUFFERS));
    assert_eq!(p.format.properties.len(), 4);
    let fmt = find(&p.format.properties, FORMAT_VIDEO_FORMAT);
    assert_eq!(fmt.flags.bits, 4);
    match &fmt.value {
        PodValue::Choice(ChoiceValue::Id(Choice(_, ChoiceEnum::Enum { default, alternatives }))) => {
            assert_eq!(*default, Id(12));
            assert_eq!(alternatives, &vec![Id(12), Id(8)]);
        }
        _ => panic!("format is not an enumeration"),
    }
    let modifier = find(&p.format.properties, FORMAT_VIDEO_MODIFIER);
    match &modifier.value {
        PodValue::Choice(ChoiceValue::Long(Choice(_, ChoiceEnum::Enum { default, alternatives }))) => {
            assert_eq!(*default, 0);
            assert_eq!(alternatives, &vec![0, INVALID]);
        }
        _ => panic!("modifier is not an enumeration"),
    }
    assert!(matches!(find(&p.format.properties, FORMAT_MEDIA_TYPE).value, PodValue::Id(Id(2))));
    assert!(matches!(find(&p.format.properties, FORMAT_MEDIA_SUBTYPE).value, PodValue::Id(Id(1))));
    let buffers = find(&p.buffers.properties, PARAM_BUFFERS_DATA_TYPE);
    assert!(matches!(buffers.value, PodValue::Int(4)));
    assert_eq!(buffers.flags.bits, 8);
}

#[test]
fn complex_values_replace_the_values_of_their_key() {
    let b = StreamPipewireBuilder::new().next().next().next().next().next();
    let b = b.add_simple_format_param(KeyValue(FormatProperties(FORMAT_VIDEO_SIZE), PodValue::Rectangle(Rectangle { width: 1, height: 1 }), None));
    let b = b.add_complex_format_param(KeyValue(FormatProperties(FORMAT_VIDEO_SIZE), PodValue::choice_of_rectangles(vec![Rectangle { width: 2, height: 2 }]), None));
    let p = b.next().build_params();
    assert!(find(&p.format.properties, FORMAT_VIDEO_SIZE).value.is_choice());
    // With no modifier of its own, the stream offers only the invalid one.
    assert!(matches!(find(&p.format.properties, FORMAT_VIDEO_MODIFIER).value, PodValue::Long(INVALID)));
}

#[test]
fn default_cpu_stream_asks_for_bgra_in_shared_memory() {
    let handler = StreamEventsHandler::<VideoEventsHandlerCPU>::new();
    handler.hola();
    let p = default_video_stream_params(&handler);
    assert_eq!(p.flags.bits(), 1 | 4 | 16);
    assert_eq!(p.properties.get("media.type").unwrap(), "Video");
    assert_eq!(p.properties.get("media.category").unwrap(), "Capture");
    assert_eq!(p.properties.get("media.role").unwrap(), "Screen");
    assert_eq!(p.format.properties.len(), 4);
    assert!(matches!(find(&p.format.properties, FORMAT_VIDEO_FORMAT).value, PodValue::Id(Id(12))));
    assert!(matches!(find(&p.format.properties, FORMAT_MEDIA_SUBTYPE).value, PodValue::Id(Id(1))));
    assert!(matches!(find(&p.format.properties, FORMAT_VIDEO_MODIFIER).value, PodValue::Long(INVALID)));
    let buffers = find(&p.buffers.properties, PARAM_BUFFERS_DATA_TYPE);
    assert!(matches!(buffers.value, PodValue::Int(4)));
}

#[test]
fn default_gpu_stream_offers_linear_and_invalid_modifiers() {
    let handler = StreamEventsHandler::<VideoEventsHandlerGPU>::new();
    assert_eq!(handler.get_modifier(), Modifier::Linear);
    let p = default_video_stream_params(&handler);
    let modifier = find(&p.format.properties, FORMAT_VIDEO_MODIFIER);
    assert_eq!(modifier.flags.bits, 8 | 16);
    match &modifier.value {
        PodValue::Choice(ChoiceValue::Long(Choice(_, ChoiceEnum::Enum { default, alternatives }))) => {
            assert_eq!(*default, 0);
            assert_eq!(alternatives, &vec![0, INVALID]);
        }
        _ => panic!("modifier is not an enumeration"),
    }
    assert!(matches!(find(&p.buffers.properties, PARAM_BUFFERS_DATA_TYPE).value, PodValue::Int(8)));
}

#[test]
fn video_stream_takes_category_and_role() {
    let mut info = VideoInfoRaw::new();
    info.set_format(VideoFormat(VIDEO_FORMAT_BGRA));
    let p = video_stream_params("Playback", "Movie", MediaSubtype(MEDIA_SUBTYPE_RAW), BufferMaskTypes::dma_buf(), info);
    assert_eq!(p.properties.get("media.category").unwrap(), "Playback");
    assert_eq!(p.properties.get("media.role").unwrap(), "Movie");
    assert!(matches!(find(&p.format.properties, FORMAT_MEDIA_TYPE).value, PodValue::Id(Id(2))));
}

#[test]
fn audio_stream_accepts_every_buffer_type() {
    let mut info = AudioInfoRaw::new();
    info.rate = 48000;
    info.channels = 2;
    let p = audio_stream_params("Capture", "Music", MediaSubtype(MEDIA_SUBTYPE_RAW), info);
    assert_eq!(p.properties.get("media.type").unwrap(), "Audio");
    assert!(matches!(find(&p.format.properties, FORMAT_MEDIA_TYPE).value, PodValue::Id(Id(1))));
    assert!(matches!(find(&p.format.properties, FORMAT_AUDIO_RATE).value, PodValue::Id(Id(48000))));
    assert!(matches!(find(&p.format.properties, FORMAT_AUDIO_CHANNELS).value, PodValue::Id(Id(2))));
    assert!(matches!(find(&p.format.properties, FORMAT_AUDIO_FLAGS).value, PodValue::Id(Id(1))));
    assert!(matches!(find(&p.buffers.properties, PARAM_BUFFERS_DATA_TYPE).value, PodValue::Int(0x3f)));
}

#[test]
fn generic_stream_keeps_its_flags_and_properties() {
    let mut props = Properties::new();
    props.insert("node.name".to_string(), "yolo".to_string());
    let p = stream_params(StreamFlags::driver(), props, MediaType(MEDIA_TYPE_VIDEO), MediaSubtype(MEDIA_SUBTYPE_RAW),
        VideoInfoRaw::new(), BufferMaskTypes::all(), PropertyFlags::empty());
    assert_eq!(p.flags.bits(), 8);
    assert_eq!(p.properties.get("node.name").unwrap(), "yolo");
    assert_eq!(p.format.properties.len(), 3);
    assert_eq!(find(&p.buffers.properties, PARAM_BUFFERS_DATA_TYPE).flags.bits, 0);
}

#[test]
fn handlers_and_processors_announce_their_buffers() {
    let cpu = StreamEventsHandler::<VideoEventsHandlerCPU>::new();
    assert_eq!(cpu.get_buffer_mode().bits(), 4);
    assert_eq!(cpu.get_media_subtype(), MediaSubtype(MEDIA_SUBTYPE_RAW));
    assert_eq!(cpu.get_video_format(), VideoFormat(VIDEO_FORMAT_BGRA));
    assert_eq!(cpu.get_modifier(), Modifier::Invalid);
    let p = StreamProcessorPipewireBuilder::<VideoProcessorCPU>::new();
    assert_eq!(p.get_buffer_mode().bits(), 4);
    let g = StreamProcessorPipewireBuilder::<VideoProcessorGPU>::new();
    assert_eq!(g.get_buffer_mode().bits(), 8);
    assert_eq!(g.get_video_format(), VideoFormat(VIDEO_FORMAT_BGRA));
    assert_eq!(g.get_media_subtype(), MediaSubtype(MEDIA_SUBTYPE_RAW));
}

#[test]
fn buffer_masks_combine() {
    let m = BufferMaskTypes::mem_fd().union(BufferMaskTypes::dma_buf());
    assert_eq!(m.bits(), 12);
    assert!(m.contains(BufferMaskTypes::dma_buf()));
    assert!(!m.contains(BufferMaskTypes::mem_ptr()));
    assert_eq!(BufferMaskTypes::all().bits(), 63);
    assert_eq!(BufferMaskTypes::from_bits_truncate(-1).bits(), 63);
    assert_eq!(BufferMaskTypes::sync_obj().bits(), 32);
    assert_eq!(BufferMaskTypes::invalid().bits(), 1);
    assert_eq!(BufferMaskTypes::mem_id().bits(), 16);
    assert_eq!(BufferMaskTypes::empty().bits(), 0);
    let f = PropertyFlags::mandatory().union(PropertyFlags::dont_fixate());
    assert!(f.contains(PropertyFlags::mandatory()));
    assert_eq!(PropertyFlags::from_bits_truncate(0xff).bits(), 0x1f);
    assert_eq!(StreamFlags::from_bits_truncate(0xffff).bits(), 0x3ff);
    assert!(StreamFlags::rt_process().union(StreamFlags::exclusive()).contains(StreamFlags::exclusive()));
}
