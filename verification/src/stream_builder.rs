//! A typed builder for the parameters of a PipeWire stream: its flags, its
//! properties, the formats it enumerates and the buffer types it accepts. Each
//! step is a state of the builder; the last turns the collected format values
//! into one property per key.

use std::collections::HashMap;
use std::marker::PhantomData;
use vstd::prelude::*;

use crate::drm::Modifier;
use crate::flags::{BufferMaskTypes, PropertyFlags, StreamFlags};
use crate::keys::{lemma_take_one_more_to_set, map_keys};
use crate::pod::{
    is_choosable_kind, is_enum_choice_of, is_simple_kind, kind_of, ChoiceEnum, ChoiceValue, Id,
    Object, PodKind, PodValue, Property,
};
use crate::properties::{set_entry, Properties};
use crate::spa::{
    drm_format_mod_invalid, flags_or_empty, keys_consistent, FormatProperties, KeyValue,
    MediaSubtype, MediaType, ToSpaProperties, FORMAT_MEDIA_SUBTYPE, FORMAT_MEDIA_TYPE,
    FORMAT_VIDEO_MODIFIER, PARAM_BUFFERS, PARAM_BUFFERS_DATA_TYPE, PARAM_ENUM_FORMAT,
    TYPE_OBJECT_FORMAT, TYPE_OBJECT_PARAM_BUFFERS,
};

verus! {

broadcast use vstd::std_specs::hash::group_hash_axioms;

/// The builder waits for the stream flags.
pub struct NeedStreamFlags;

/// The builder waits for the stream properties.
pub struct NeedStreamProperties;

/// The builder waits for the media type.
pub struct NeedMediaType;

/// The builder waits for the media subtype.
pub struct NeedMediaSubtype;

/// The builder waits for the format values.
pub struct NeedFormatParams;

/// The builder waits for the accepted buffer types.
pub struct NeedBufferParams;

/// The builder holds every parameter of the stream.
pub struct StreamReady;

/// The values collected under one format key: at least one, all under that
/// key, and, where there are several, all simple and of one kind.
pub open spec fn format_list_wf(k: u32, l: Seq<KeyValue>) -> bool {
    &&& l.len() > 0
    &&& forall|i: int| 0 <= i < l.len() ==> (#[trigger] l[i]).0 == FormatProperties(k)
    &&& l.len() >= 2 ==> forall|i: int|
        0 <= i < l.len() ==> is_simple_kind(kind_of((#[trigger] l[i]).1)) && kind_of(l[i].1)
            == kind_of(l[0].1)
}

/// Every key holds a well-formed list of values.
pub open spec fn formats_wf(m: Map<u32, Seq<KeyValue>>) -> bool {
    forall|k: u32| #[trigger] m.contains_key(k) ==> format_list_wf(k, m[k])
}

/// The list under `k` after `kv` is added to it.
pub open spec fn appended(m: Map<u32, Seq<KeyValue>>, k: u32, kv: KeyValue) -> Seq<KeyValue> {
    if m.contains_key(k) {
        m[k].push(kv)
    } else {
        seq![kv]
    }
}

/// The values of a list, in order.
pub open spec fn list_values(l: Seq<KeyValue>) -> Seq<PodValue> {
    l.map_values(|kv: KeyValue| kv.1)
}

/// `p` is the property that the list of values `l` stands for: it has the key
/// and the flags of the first value; a single value is its value, several are
/// grouped into a choice that enumerates them, the first being the default.
pub open spec fn is_property_of_list(p: Property, l: Seq<KeyValue>) -> bool {
    &&& l.len() > 0
    &&& p.key == l[0].0.0
    &&& p.flags == flags_or_empty(l[0].2)
    &&& l.len() == 1 ==> p.value == l[0].1
    &&& l.len() != 1 ==> is_enum_choice_of(p.value, list_values(l))
}

/// The modifier value that the last format step always adds: a `Long` holding
/// `DRM_FORMAT_MOD_INVALID`.
pub open spec fn invalid_modifier_value() -> KeyValue {
    KeyValue(
        FormatProperties(FORMAT_VIDEO_MODIFIER),
        PodValue::Long(drm_format_mod_invalid() as i64),
        None,
    )
}

/// The format values once the invalid modifier has been added to them.
pub open spec fn with_invalid_modifier(m: Map<u32, Seq<KeyValue>>) -> Map<u32, Seq<KeyValue>> {
    m.insert(FORMAT_VIDEO_MODIFIER, appended(m, FORMAT_VIDEO_MODIFIER, invalid_modifier_value()))
}

/// The format values can be turned into properties once the invalid modifier
/// has been added: a modifier already present is a `Long`, and every key
/// holding several values holds values that can be chosen among.
pub open spec fn formats_buildable(m: Map<u32, Seq<KeyValue>>) -> bool {
    &&& m.contains_key(FORMAT_VIDEO_MODIFIER) ==> kind_of(m[FORMAT_VIDEO_MODIFIER][0].1)
        == PodKind::Long
    &&& forall|k: u32| #[trigger] m.contains_key(k) && m[k].len() >= 2 ==> is_choosable_kind(
        kind_of(m[k][0].1),
    )
}

/// `v` holds the values of `m`, each once, in the order of some listing of
/// its keys.
pub open spec fn lists_map_values(v: Seq<Property>, m: Map<u32, Property>) -> bool {
    exists|ks: Seq<u32>|
        {
            &&& ks.no_duplicates()
            &&& ks.to_set() == m.dom()
            &&& ks.len() == v.len()
            &&& forall|i: int| 0 <= i < v.len() ==> #[trigger] v[i] == m[ks[i]]
        }
}

/// `v` holds one property per key of `m`, each the property that the values
/// of its key stand for, in the order of some listing of the keys.
pub open spec fn describes_formats(v: Seq<Property>, m: Map<u32, Seq<KeyValue>>) -> bool {
    exists|ks: Seq<u32>|
        {
            &&& ks.no_duplicates()
            &&& ks.to_set() == m.dom()
            &&& ks.len() == v.len()
            &&& forall|i: int| 0 <= i < v.len() ==> is_property_of_list(#[trigger] v[i], m[ks[i]])
        }
}

/// Listing the properties built from the values `m` describes `m`.
pub proof fn lemma_listed_properties_describe(
    v: Seq<Property>,
    built: Map<u32, Property>,
    m: Map<u32, Seq<KeyValue>>,
)
    requires
        lists_map_values(v, built),
        built.dom() == m.dom(),
        forall|k: u32| #[trigger] m.contains_key(k) ==> is_property_of_list(built[k], m[k]),
    ensures
        describes_formats(v, m),
{
    let ks = choose|ks: Seq<u32>|
        {
            &&& ks.no_duplicates()
            &&& ks.to_set() == built.dom()
            &&& ks.len() == v.len()
            &&& forall|i: int| 0 <= i < v.len() ==> #[trigger] v[i] == built[ks[i]]
        };
    assert forall|i: int| 0 <= i < v.len() implies is_property_of_list(#[trigger] v[i], m[ks[i]]) by {
        assert(v[i] == built[ks[i]]);
        assert(ks.to_set().contains(ks[i]));
        assert(m.contains_key(ks[i]));
    }
}

/// Whatever format values a stream was given, the modifier property it
/// announces offers `DRM_FORMAT_MOD_INVALID`: as its only value, or as the
/// last alternative of its choice.
pub proof fn lemma_invalid_modifier_offered(m: Map<u32, Seq<KeyValue>>, p: Property)
    requires
        formats_wf(m),
        formats_buildable(m),
        is_property_of_list(p, with_invalid_modifier(m)[FORMAT_VIDEO_MODIFIER]),
    ensures
        with_invalid_modifier(m).contains_key(FORMAT_VIDEO_MODIFIER),
        p.value == PodValue::Long(drm_format_mod_invalid() as i64) || (p.value matches PodValue::Choice(
            ChoiceValue::Long(c),
        ) && c.1 matches ChoiceEnum::Enum { alternatives, .. } && alternatives@.last()
            == drm_format_mod_invalid() as i64),
{
    let l = with_invalid_modifier(m)[FORMAT_VIDEO_MODIFIER];
    assert(l.last() == invalid_modifier_value());
    if l.len() != 1 {
        let vals = list_values(l);
        assert(m.contains_key(FORMAT_VIDEO_MODIFIER));
        assert(format_list_wf(FORMAT_VIDEO_MODIFIER, m[FORMAT_VIDEO_MODIFIER]));
        assert(l[0] == m[FORMAT_VIDEO_MODIFIER][0]);
        assert(kind_of(vals[0]) == PodKind::Long);
        let longs = vals.map_values(|v: PodValue| v->Long_0);
        assert(longs.last() == drm_format_mod_invalid() as i64);
    }
}

/// A builder of stream parameters, in state `State`.
pub struct StreamPipewireBuilder<State> {
    stream_flags: StreamFlags,
    stream_properties: Properties,
    format_params: HashMap<u32, Vec<KeyValue>>,
    built_format_params: HashMap<u32, Property>,
    buffer_params: HashMap<u32, Property>,
    _state: PhantomData<State>,
}

/// Every parameter of a stream, ready to be handed to PipeWire.
pub struct StreamParams {
    pub flags: StreamFlags,
    pub properties: Properties,
    /// The enumerated formats (`SPA_PARAM_EnumFormat`, a format object).
    pub format: Object,
    /// The buffer requirements (`SPA_PARAM_Buffers`, a buffers object).
    pub buffers: Object,
}

impl<State> StreamPipewireBuilder<State> {
    /// The flags the stream will be connected with.
    pub closed spec fn flags(&self) -> StreamFlags {
        self.stream_flags
    }

    /// The properties the stream will be created with.
    pub closed spec fn props(&self) -> Seq<(Seq<char>, Seq<char>)> {
        self.stream_properties.view()
    }

    /// The format values collected so far, by raw key.
    pub closed spec fn formats(&self) -> Map<u32, Seq<KeyValue>> {
        self.format_params@.map_values(|l: Vec<KeyValue>| l@)
    }

    /// The format properties built by the last format step, by raw key.
    pub closed spec fn built(&self) -> Map<u32, Property> {
        self.built_format_params@
    }

    /// The buffer properties, by raw key.
    pub closed spec fn buffers(&self) -> Map<u32, Property> {
        self.buffer_params@
    }

    /// The properties have distinct keys and the format values are well formed.
    pub closed spec fn wf(&self) -> bool {
        &&& self.stream_properties.wf()
        &&& formats_wf(self.formats())
    }

    /// The same parameters, in another state.
    fn transition<NewState>(self) -> (r: StreamPipewireBuilder<NewState>)
        ensures
            r.flags() == self.flags(),
            r.props() == self.props(),
            r.formats() == self.formats(),
            r.built() == self.built(),
            r.buffers() == self.buffers(),
            r.wf() == self.wf(),
    {
        StreamPipewireBuilder {
            stream_flags: self.stream_flags,
            stream_properties: self.stream_properties,
            format_params: self.format_params,
            built_format_params: self.built_format_params,
            buffer_params: self.buffer_params,
            _state: PhantomData,
        }
    }
}

impl StreamPipewireBuilder<NeedStreamFlags> {
    /// A builder with no flag, no property, no format and no buffer parameter.
    pub fn new() -> (r: Self)
        ensures
            r.flags() == StreamFlags::spec_empty(),
            r.props() == Seq::<(Seq<char>, Seq<char>)>::empty(),
            r.formats() == Map::<u32, Seq<KeyValue>>::empty(),
            r.built() == Map::<u32, Property>::empty(),
            r.buffers() == Map::<u32, Property>::empty(),
            r.wf(),
    {
        let r = StreamPipewireBuilder {
            stream_properties: Properties::new(),
            stream_flags: StreamFlags::empty(),
            format_params: HashMap::new(),
            built_format_params: HashMap::new(),
            buffer_params: HashMap::new(),
            _state: PhantomData,
        };
        assert(r.formats() =~= Map::<u32, Seq<KeyValue>>::empty());
        r
    }

    /// Adds the flags of `flag`.
    pub fn add_flag(self, flag: StreamFlags) -> (r: Self)
        ensures
            r.flags().bits == self.flags().bits | flag.bits,
            r.props() == self.props(),
            r.formats() == self.formats(),
            r.built() == self.built(),
            r.buffers() == self.buffers(),
            r.wf() == self.wf(),
    {
        let mut b = self;
        b.stream_flags = b.stream_flags.union(flag);
        b
    }

    /// Removes the flags of `flags`.
    pub fn remove_flags(self, flags: StreamFlags) -> (r: Self)
        ensures
            r.flags().bits == self.flags().bits & !flags.bits,
            r.props() == self.props(),
            r.formats() == self.formats(),
            r.built() == self.built(),
            r.buffers() == self.buffers(),
            r.wf() == self.wf(),
    {
        let mut b = self;
        b.stream_flags = b.stream_flags.difference(flags);
        b
    }

    /// Replaces the flags with `flags`.
    pub fn set_flags(self, flags: StreamFlags) -> (r: Self)
        ensures
            r.flags() == flags,
            r.props() == self.props(),
            r.formats() == self.formats(),
            r.built() == self.built(),
            r.buffers() == self.buffers(),
            r.wf() == self.wf(),
    {
        let mut b = self;
        b.stream_flags = flags;
        b
    }

    /// On to the properties.
    pub fn next(self) -> (r: StreamPipewireBuilder<NeedStreamProperties>)
        ensures
            r.flags() == self.flags(),
            r.props() == self.props(),
            r.formats() == self.formats(),
            r.built() == self.built(),
            r.buffers() == self.buffers(),
            r.wf() == self.wf(),
    {
        self.transition()
    }
}


impl StreamPipewireBuilder<NeedStreamProperties> {
    /// Sets the property `key` to `value`.
    pub fn add_property(self, key: String, value: String) -> (r: Self)
        requires self.wf(),
        ensures
            r.props() == set_entry(self.props(), key@, value@),
            r.flags() == self.flags(),
            r.formats() == self.formats(),
            r.built() == self.built(),
            r.buffers() == self.buffers(),
            r.wf(),
    {
        let mut b = self;
        b.stream_properties.insert(key, value);
        b
    }

    /// Replaces the properties with `properties`.
    pub fn set_properties(self, properties: Properties) -> (r: Self)
        requires self.wf(), properties.wf(),
        ensures
            r.props() == properties.view(),
            r.flags() == self.flags(),
            r.formats() == self.formats(),
            r.built() == self.built(),
            r.buffers() == self.buffers(),
            r.wf(),
    {
        let mut b = self;
        b.stream_properties = properties;
        b
    }

    /// On to the next step.
    pub fn next(self) -> (r: StreamPipewireBuilder<NeedMediaType>)
        ensures
            r.flags() == self.flags(),
            r.props() == self.props(),
            r.formats() == self.formats(),
            r.built() == self.built(),
            r.buffers() == self.buffers(),
            r.wf() == self.wf(),
    {
        self.transition()
    }
}

impl StreamPipewireBuilder<NeedMediaType> {
    /// Sets the media type, as an id under `SPA_FORMAT_mediaType`.
    pub fn set_media_type(self, media_type: MediaType) -> (r: Self)
        requires self.wf(),
        ensures
            r.formats() == self.formats().insert(
                FORMAT_MEDIA_TYPE,
                seq![KeyValue(FormatProperties(FORMAT_MEDIA_TYPE), PodValue::Id(Id(media_type.0)), None)],
            ),
            r.flags() == self.flags(),
            r.props() == self.props(),
            r.built() == self.built(),
            r.buffers() == self.buffers(),
            r.wf(),
    {
        let ghost before = self.formats();
        let mut b = self;
        let mut v: Vec<KeyValue> = Vec::new();
        v.push(KeyValue(FormatProperties(FORMAT_MEDIA_TYPE), PodValue::Id(Id(media_type.as_raw())), None));
        assert(v@ =~= seq![KeyValue(FormatProperties(FORMAT_MEDIA_TYPE), PodValue::Id(Id(media_type.0)), None)]);
        b.format_params.insert(FORMAT_MEDIA_TYPE, v);
        assert(b.formats() =~= before.insert(
            FORMAT_MEDIA_TYPE,
            seq![KeyValue(FormatProperties(FORMAT_MEDIA_TYPE), PodValue::Id(Id(media_type.0)), None)],
        ));
        b
    }

    /// On to the next step.
    pub fn next(self) -> (r: StreamPipewireBuilder<NeedMediaSubtype>)
        ensures
            r.flags() == self.flags(),
            r.props() == self.props(),
            r.formats() == self.formats(),
            r.built() == self.built(),
            r.buffers() == self.buffers(),
            r.wf() == self.wf(),
    {
        self.transition()
    }
}

impl StreamPipewireBuilder<NeedMediaSubtype> {
    /// Sets the media subtype, as an id under `SPA_FORMAT_mediaSubtype`.
    pub fn set_media_subtype(self, media_subtype: MediaSubtype) -> (r: Self)
        requires self.wf(),
        ensures
            r.formats() == self.formats().insert(
                FORMAT_MEDIA_SUBTYPE,
                seq![KeyValue(FormatProperties(FORMAT_MEDIA_SUBTYPE), PodValue::Id(Id(media_subtype.0)), None)],
            ),
            r.flags() == self.flags(),
            r.props() == self.props(),
            r.built() == self.built(),
            r.buffers() == self.buffers(),
            r.wf(),
    {
        let ghost before = self.formats();
        let mut b = self;
        let mut v: Vec<KeyValue> = Vec::new();
        v.push(KeyValue(FormatProperties(FORMAT_MEDIA_SUBTYPE), PodValue::Id(Id(media_subtype.as_raw())), None));
        assert(v@ =~= seq![KeyValue(FormatProperties(FORMAT_MEDIA_SUBTYPE), PodValue::Id(Id(media_subtype.0)), None)]);
        b.format_params.insert(FORMAT_MEDIA_SUBTYPE, v);
        assert(b.formats() =~= before.insert(
            FORMAT_MEDIA_SUBTYPE,
            seq![KeyValue(FormatProperties(FORMAT_MEDIA_SUBTYPE), PodValue::Id(Id(media_subtype.0)), None)],
        ));
        b
    }

    /// On to the next step.
    pub fn next(self) -> (r: StreamPipewireBuilder<NeedBufferParams>)
        ensures
            r.flags() == self.flags(),
            r.props() == self.props(),
            r.formats() == self.formats(),
            r.built() == self.built(),
            r.buffers() == self.buffers(),
            r.wf() == self.wf(),
    {
        self.transition()
    }
}

impl StreamPipewireBuilder<NeedBufferParams> {
    /// Sets the accepted buffer data types, as an `Int` mask under
    /// `SPA_PARAM_BUFFERS_dataType`, with `flags`.
    pub fn set_buffer_type(self, buffer_param: BufferMaskTypes, flags: PropertyFlags) -> (r: Self)
        ensures
            r.buffers() == self.buffers().insert(
                PARAM_BUFFERS_DATA_TYPE,
                Property {
                    key: PARAM_BUFFERS_DATA_TYPE,
                    flags,
                    value: PodValue::Int(buffer_param.bits),
                },
            ),
            r.flags() == self.flags(),
            r.props() == self.props(),
            r.formats() == self.formats(),
            r.built() == self.built(),
            r.wf() == self.wf(),
    {
        let mut b = self;
        b.buffer_params.insert(
            PARAM_BUFFERS_DATA_TYPE,
            Property { key: PARAM_BUFFERS_DATA_TYPE, flags, value: PodValue::Int(buffer_param.bits()) },
        );
        b
    }

    /// On to the next step.
    pub fn next(self) -> (r: StreamPipewireBuilder<NeedFormatParams>)
        ensures
            r.flags() == self.flags(),
            r.props() == self.props(),
            r.formats() == self.formats(),
            r.built() == self.built(),
            r.buffers() == self.buffers(),
            r.wf() == self.wf(),
    {
        self.transition()
    }
}


/// The property that a well-formed list of values stands for.
fn property_of_list(list: Vec<KeyValue>, Ghost(k): Ghost<u32>) -> (p: Property)
    requires
        format_list_wf(k, list@),
        list@.len() >= 2 ==> is_choosable_kind(kind_of(list@[0].1)),
    ensures
        is_property_of_list(p, list@),
{
    let ghost l = list@;
    let mut list = list;
    if list.len() == 1 {
        let kv = list.remove(0);
        let flags = match kv.2 {
            Some(f) => f,
            None => PropertyFlags::empty(),
        };
        Property { key: kv.0.0, flags, value: kv.1 }
    } else {
        let key: u32 = list[0].0.0;
        let flags = match list[0].2 {
            Some(f) => f,
            None => PropertyFlags::empty(),
        };
        let mut values: Vec<PodValue> = Vec::new();
        let n = list.len();
        let mut i: usize = 0;
        while i < n
            invariant
                n == l.len(),
                i <= n,
                list@ == l.skip(i as int),
                values@ == list_values(l.take(i as int)),
            decreases n - i,
        {
            let kv = list.remove(0);
            values.push(kv.1);
            assert(l.take(i + 1) == l.take(i as int).push(l[i as int]));
            assert(list_values(l.take(i + 1)) =~= list_values(l.take(i as int)).push(l[i as int].1));
            assert(l.skip(i + 1) =~= l.skip(i as int).drop_first());
            i = i + 1;
        }
        assert(l.take(n as int) == l);
        assert(values@ == list_values(l));
        let value = PodValue::choice_of_values(values);
        Property { key, flags, value }
    }
}

impl StreamPipewireBuilder<NeedFormatParams> {
    /// Sets `property`, a value that is not simple, as the only value of its key.
    pub fn add_complex_format_param(self, property: KeyValue) -> (r: Self)
        requires
            self.wf(),
            !is_simple_kind(kind_of(property.1)),
        ensures
            r.formats() == self.formats().insert(property.0.0, seq![property]),
            r.flags() == self.flags(),
            r.props() == self.props(),
            r.built() == self.built(),
            r.buffers() == self.buffers(),
            r.wf(),
    {
        let ghost before = self.formats();
        let ghost p = property;
        let mut b = self;
        let key: u32 = property.0.0;
        let mut v: Vec<KeyValue> = Vec::new();
        v.push(property);
        assert(v@ =~= seq![p]);
        b.format_params.insert(key, v);
        assert(b.formats() =~= before.insert(key, seq![p]));
        b
    }

    /// Adds `property`, a simple value, to the values of its key; a key that
    /// already has values only takes values of the same kind.
    pub fn add_simple_format_param(self, property: KeyValue) -> (r: Self)
        requires
            self.wf(),
            is_simple_kind(kind_of(property.1)),
            self.formats().contains_key(property.0.0) ==> kind_of(
                self.formats()[property.0.0][0].1,
            ) == kind_of(property.1),
        ensures
            r.formats() == self.formats().insert(
                property.0.0,
                appended(self.formats(), property.0.0, property),
            ),
            r.flags() == self.flags(),
            r.props() == self.props(),
            r.built() == self.built(),
            r.buffers() == self.buffers(),
            r.wf(),
    {
        let ghost before = self.formats();
        let ghost p = property;
        let mut b = self;
        let key: u32 = property.0.0;
        let mut list: Vec<KeyValue> = match b.format_params.remove(&key) {
            Some(l) => l,
            None => Vec::new(),
        };
        list.push(property);
        assert(list@ =~= appended(before, key, p));
        b.format_params.insert(key, list);
        assert(b.formats() =~= before.insert(key, appended(before, key, p)));
        b
    }

    /// On to the last step: adds `DRM_FORMAT_MOD_INVALID` to the modifier
    /// values (a stream that takes buffers without explicit modifiers must
    /// offer it), then turns the values of each key into one property: a
    /// single value as it is, several values as a choice that enumerates them,
    /// the first being the default. Either keeps the flags of the first value.
    pub fn next(self) -> (r: StreamPipewireBuilder<StreamReady>)
        requires
            self.wf(),
            formats_buildable(self.formats()),
        ensures
            r.built().dom() == with_invalid_modifier(self.formats()).dom(),
            forall|k: u32| #[trigger] with_invalid_modifier(self.formats()).contains_key(k)
                ==> is_property_of_list(r.built()[k], with_invalid_modifier(self.formats())[k]),
            r.formats() == Map::<u32, Seq<KeyValue>>::empty(),
            r.flags() == self.flags(),
            r.props() == self.props(),
            r.buffers() == self.buffers(),
            r.wf(),
    {
        let ghost old_formats = self.formats();
        let invalid: u64 = Modifier::Invalid.code();
        let modifier = KeyValue(FormatProperties(FORMAT_VIDEO_MODIFIER), PodValue::from(invalid), None);
        assert(modifier == invalid_modifier_value());
        let mut b = self.add_simple_format_param(modifier);
        let ghost m = b.formats();
        assert(m == with_invalid_modifier(old_formats));
        assert forall|k: u32| #[trigger] m.contains_key(k) && m[k].len() >= 2 implies is_choosable_kind(
            kind_of(m[k][0].1),
        ) by {
            if k == FORMAT_VIDEO_MODIFIER {
                if old_formats.contains_key(k) {
                    assert(m[k][0] == old_formats[k][0]);
                }
            } else {
                assert(m[k] == old_formats[k]);
            }
        }
        let ks = map_keys(&b.format_params);
        let mut built: HashMap<u32, Property> = HashMap::new();
        let n = ks.len();
        let mut i: usize = 0;
        while i < n
            invariant
                n == ks@.len(),
                i <= n,
                ks@.no_duplicates(),
                ks@.to_set() == m.dom(),
                formats_wf(m),
                forall|k: u32| #[trigger] m.contains_key(k) && m[k].len() >= 2 ==> is_choosable_kind(
                    kind_of(m[k][0].1),
                ),
                b.formats() == m.remove_keys(ks@.take(i as int).to_set()),
                built@.dom() == ks@.take(i as int).to_set(),
                forall|k: u32| #[trigger] built@.contains_key(k) ==> is_property_of_list(
                    built@[k],
                    m[k],
                ),
                b.flags() == self.flags(),
                b.props() == self.props(),
                b.buffers() == self.buffers(),
                b.stream_properties.wf(),
            decreases n - i,
        {
            let k: u32 = ks[i];
            assert(!ks@.take(i as int).contains(k));
            assert(ks@.to_set().contains(k));
            proof {
                lemma_take_one_more_to_set(ks@, i as int);
            }
            let ghost before = b.format_params@;
            let ghost before_f = b.formats();
            assert(b.formats().contains_key(k));
            assert(b.formats()[k] == m[k]);
            assert(before.contains_key(k));
            assert(b.formats()[k] == before[k]@);
            let list = b.format_params.remove(&k).unwrap();
            assert(list@ == m[k]);
            assert(b.format_params@ == before.remove(k));
            let p = property_of_list(list, Ghost(k));
            built.insert(k, p);
            assert(b.formats() =~= before_f.remove(k));
            assert(m.remove_keys(ks@.take(i as int).to_set()).remove(k) =~= m.remove_keys(
                ks@.take(i + 1).to_set(),
            ));
            i = i + 1;
        }
        assert(ks@.take(n as int) == ks@);
        assert(b.formats() =~= Map::<u32, Seq<KeyValue>>::empty());
        b.built_format_params = built;
        b.transition()
    }

    /// Sets every property that `properties` stands for as the only value of
    /// its key.
    pub fn set_formats_params<P: ToSpaProperties>(self, properties: P) -> (r: Self)
        requires self.wf(),
        ensures
            r.formats() == self.formats().union_prefer_right(
                properties.spa_properties().map_values(|kv: KeyValue| seq![kv]),
            ),
            r.flags() == self.flags(),
            r.props() == self.props(),
            r.built() == self.built(),
            r.buffers() == self.buffers(),
            r.wf(),
    {
        let ghost before = self.formats();
        let ghost add = properties.spa_properties();
        let mut b = self;
        let mut incoming = properties.to_spa_properties();
        let ks = map_keys(&incoming);
        let n = ks.len();
        let mut i: usize = 0;
        while i < n
            invariant
                n == ks@.len(),
                i <= n,
                ks@.no_duplicates(),
                ks@.to_set() == add.dom(),
                keys_consistent(add),
                incoming@ == add.remove_keys(ks@.take(i as int).to_set()),
                b.formats() == before.union_prefer_right(
                    add.restrict(ks@.take(i as int).to_set()).map_values(|kv: KeyValue| seq![kv]),
                ),
                b.flags() == self.flags(),
                b.props() == self.props(),
                b.built() == self.built(),
                b.buffers() == self.buffers(),
                b.wf(),
            decreases n - i,
        {
            let k: u32 = ks[i];
            assert(!ks@.take(i as int).contains(k));
            assert(ks@.to_set().contains(k));
            let kv = incoming.remove(&k).unwrap();
            let ghost g = kv;
            assert(add.contains_key(k));
            assert(g == add[k]);
            assert(g.0 == FormatProperties(k));
            let mut v: Vec<KeyValue> = Vec::new();
            v.push(kv);
            assert(v@ =~= seq![g]);
            let ghost mid = b.formats();
            b.format_params.insert(k, v);
            assert(b.formats() =~= mid.insert(k, seq![g]));
            proof {
                lemma_take_one_more_to_set(ks@, i as int);
            }
            assert(incoming@ =~= add.remove_keys(ks@.take(i + 1).to_set()));
            assert(b.formats() =~= before.union_prefer_right(
                add.restrict(ks@.take(i + 1).to_set()).map_values(|kv: KeyValue| seq![kv]),
            ));
            i = i + 1;
        }
        assert(ks@.take(n as int) == ks@);
        assert(add.restrict(add.dom()) =~= add);
        b
    }
}


impl StreamPipewireBuilder<StreamReady> {
    /// Every parameter of the stream: its flags and properties, the format
    /// object (`SPA_PARAM_EnumFormat`) holding the built format properties, and
    /// the buffers object (`SPA_PARAM_Buffers`) holding the buffer properties.
    pub fn build_params(self) -> (r: StreamParams)
        ensures
            r.flags == self.flags(),
            r.properties.view() == self.props(),
            r.format.type_ == TYPE_OBJECT_FORMAT,
            r.format.id == PARAM_ENUM_FORMAT,
            lists_map_values(r.format.properties@, self.built()),
            r.buffers.type_ == TYPE_OBJECT_PARAM_BUFFERS,
            r.buffers.id == PARAM_BUFFERS,
            lists_map_values(r.buffers.properties@, self.buffers()),
    {
        let format_properties = map_into_values(self.built_format_params);
        let buffer_properties = map_into_values(self.buffer_params);
        StreamParams {
            flags: self.stream_flags,
            properties: self.stream_properties,
            format: Object { type_: TYPE_OBJECT_FORMAT, id: PARAM_ENUM_FORMAT, properties: format_properties },
            buffers: Object {
                type_: TYPE_OBJECT_PARAM_BUFFERS,
                id: PARAM_BUFFERS,
                properties: buffer_properties,
            },
        }
    }
}

/// The values of `m`, each once, in the order of the map's keys.
pub(crate) fn map_into_values(m: HashMap<u32, Property>) -> (v: Vec<Property>)
    ensures lists_map_values(v@, m@),
{
    let ghost orig = m@;
    let mut m = m;
    let ks = map_keys(&m);
    let mut v: Vec<Property> = Vec::new();
    let n = ks.len();
    let mut i: usize = 0;
    while i < n
        invariant
            n == ks@.len(),
            i <= n,
            ks@.no_duplicates(),
            ks@.to_set() == orig.dom(),
            m@ == orig.remove_keys(ks@.take(i as int).to_set()),
            v@.len() == i,
            forall|j: int| 0 <= j < i ==> #[trigger] v@[j] == orig[ks@[j]],
        decreases n - i,
    {
        let k: u32 = ks[i];
        assert(!ks@.take(i as int).contains(k));
        assert(ks@.to_set().contains(k));
        proof {
            lemma_take_one_more_to_set(ks@, i as int);
        }
        let p = m.remove(&k).unwrap();
        v.push(p);
        assert(m@ =~= orig.remove_keys(ks@.take(i + 1).to_set()));
        i = i + 1;
    }
    assert(forall|j: int| 0 <= j < v@.len() ==> #[trigger] v@[j] == orig[ks@[j]]);
    v
}

} // verus!
