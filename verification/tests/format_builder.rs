use pipewire_yolo_client::flags::{PropertyFlags, StreamFlags};
use pipewire_yolo_client::format_builder::StreamPipewireBuilder;
use pipewire_yolo_client::media::VideoInfoRaw;
use pipewire_yolo_client::pod::{Id, PodValue, Property, Rectangle};
use pipewire_yolo_client::spa::{
    FormatProperties, KeyValue, MediaSubtype, MediaType, VideoFormat, FORMAT_MEDIA_SUBTYPE,
    FORMAT_MEDIA_TYPE, FORMAT_VIDEO_FORMAT, FORMAT_VIDEO_MODIFIER, FORMAT_VIDEO_SIZE,
    MEDIA_SUBTYPE_RAW, MEDIA_TYPE_VIDEO, PARAM_BUFFERS, PARAM_BUFFERS_DATA_TYPE, PARAM_ENUM_FORMAT,
    TYPE_OBJECT_FORMAT, TYPE_OBJECT_PARAM_BUFFERS, VIDEO_FORMAT_BGRA,
};

fn find(props: &[Property], key: u32) -> &Property {
    props.iter().find(|p| p.key == key).expect("property is missing")
}

#[test]
fn formats_take_each_property_as_it_is() {
    let mut info = VideoInfoRaw::new();
    info.set_format(VideoFormat(VIDEO_FORMAT_BGRA));
    info.size = Rectangle { width: 640, height: 480 };
    let p = StreamPipewireBuilder::new()
        .set_flags(StreamFlags::autoconnect())
        .add_flag(StreamFlags::map_buffers())
        .next()
        .add_property("media.type".to_string(), "Video".to_string())
        .next()
        .set_formats(MediaType(MEDIA_TYPE_VIDEO), MediaSubtype(MEDIA_SUBTYPE_RAW), info)
        .next()
        .build_params();
    assert_eq!(p.flags.bits, 1 | 4);
    assert_eq!(p.properties.get("media.type").unwrap(), "Video");
    assert_eq!((p.format.type_, p.format.id), (TYPE_OBJECT_FORMAT, PARAM_ENUM_FORMAT));
    // Media type, subtype, format, size and the zero modifier; no invalid
    // modifier is added.
    assert_eq!(p.format.properties.len(), 5);
    assert!(matches!(find(&p.format.properties, FORMAT_MEDIA_TYPE).value, PodValue::Id(Id(2))));
    assert!(matches!(find(&p.format.properties, FORMAT_MEDIA_SUBTYPE).value, PodValue::Id(Id(1))));
    assert!(matches!(find(&p.format.properties, FORMAT_VIDEO_FORMAT).value, PodValue::Id(Id(12))));
    assert!(matches!(
        find(&p.format.properties, FORMAT_VIDEO_SIZE).value,
        PodValue::Rectangle(Rectangle { width: 640, height: 480 })
    ));
    assert!(matches!(find(&p.format.properties, FORMAT_VIDEO_MODIFIER).value, PodValue::Long(0)));
    assert_eq!((p.buffers.type_, p.buffers.id), (TYPE_OBJECT_PARAM_BUFFERS, PARAM_BUFFERS));
    assert_eq!(p.buffers.properties.len(), 1);
    assert_eq!(p.buffers.properties[0].key, PARAM_BUFFERS_DATA_TYPE);
    assert_eq!(p.buffers.properties[0].flags, PropertyFlags::empty());
    assert!(matches!(p.buffers.properties[0].value, PodValue::Int(12)));
}

#[test]
fn a_later_format_replaces_the_one_under_its_key() {
    let p = StreamPipewireBuilder::new()
        .next()
        .next()
        .add_format(KeyValue(FormatProperties(FORMAT_VIDEO_FORMAT), PodValue::Id(Id(7)), None).into())
        .add_format(
            KeyValue(FormatProperties(FORMAT_VIDEO_FORMAT), PodValue::Id(Id(12)), Some(PropertyFlags::mandatory()))
                .into(),
        )
        .next()
        .build_params();
    assert_eq!(p.format.properties.len(), 1);
    let q = &p.format.properties[0];
    assert!(matches!(q.value, PodValue::Id(Id(12))));
    assert_eq!(q.flags, PropertyFlags::mandatory());
    assert_eq!(p.flags.bits, 0);
}

#[test]
fn setting_formats_drops_earlier_ones() {
    let p = StreamPipewireBuilder::new()
        .next()
        .next()
        .add_format(KeyValue(FormatProperties(FORMAT_VIDEO_SIZE), PodValue::Int(3), None).into())
        .set_formats(MediaType(MEDIA_TYPE_VIDEO), MediaSubtype(MEDIA_SUBTYPE_RAW), VideoInfoRaw::new())
        .next()
        .build_params();
    assert_eq!(p.format.properties.len(), 3);
    assert!(p.format.properties.iter().all(|q| q.key != FORMAT_VIDEO_SIZE));
}
