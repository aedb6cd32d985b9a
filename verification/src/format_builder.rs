//! A typed builder of stream parameters that takes each format property as it
//! is: one property per key, the last one set under a key replacing the
//! others. Its streams accept buffers in shared memory or as dma-bufs.

use std::collections::HashMap;
use std::marker::PhantomData;
use vstd::prelude::*;

use crate::flags::{PropertyFlags, StreamFlags};
use crate::keys::{lemma_take_one_more_to_set, map_keys};
use crate::pod::{Id, Object, PodValue, Property};
use crate::properties::{set_entry, Properties};
use crate::spa::{
    flags_or_empty, keys_consistent, KeyValue, MediaSubtype, MediaType, ToSpaProperties,
    FORMAT_MEDIA_SUBTYPE, FORMAT_MEDIA_TYPE, PARAM_BUFFERS, PARAM_BUFFERS_DATA_TYPE,
    PARAM_ENUM_FORMAT, TYPE_OBJECT_FORMAT, TYPE_OBJECT_PARAM_BUFFERS,
};
use crate::stream_builder::{lists_map_values, map_into_values, StreamParams};

verus! {

broadcast use vstd::std_specs::hash::group_hash_axioms;

/// The builder waits for the stream flags.
pub struct NeedFlags;

/// The builder waits for the stream properties.
pub struct NeedProperties;

/// The builder waits for the format properties.
pub struct NeedFormatting;

/// The builder holds every parameter of the stream.
pub struct StreamReady;

/// The property a key and value stand for: same key and value, absent flags
/// read as empty flags.
pub open spec fn kv_property(kv: KeyValue) -> Property {
    Property { key: kv.0.0, flags: flags_or_empty(kv.2), value: kv.1 }
}

/// The format property that gives a raw `value` as an id under `key`, without
/// flags.
pub open spec fn id_property(key: u32, value: u32) -> Property {
    Property { key, flags: PropertyFlags { bits: 0 }, value: PodValue::Id(Id(value)) }
}

/// The format properties of media type `media_type`, subtype `media_subtype`
/// and the format `format`: each property of the format under its key, then
/// the media type and subtype as ids.
pub open spec fn formats_of(
    media_type: MediaType,
    media_subtype: MediaSubtype,
    format: Map<u32, KeyValue>,
) -> Map<u32, Property> {
    format.map_values(|kv: KeyValue| kv_property(kv)).insert(
        FORMAT_MEDIA_TYPE,
        id_property(FORMAT_MEDIA_TYPE, media_type.0),
    ).insert(FORMAT_MEDIA_SUBTYPE, id_property(FORMAT_MEDIA_SUBTYPE, media_subtype.0))
}

/// The buffer data types these streams accept: shared memory
/// (`1 << SPA_DATA_MemFd`) or dma-bufs (`1 << SPA_DATA_DmaBuf`).
pub open spec fn mem_fd_or_dma_buf() -> i32 {
    12
}

/// The only buffer property of these streams: the accepted data types, as an
/// `Int` without flags.
pub open spec fn data_type_property() -> Property {
    Property {
        key: PARAM_BUFFERS_DATA_TYPE,
        flags: PropertyFlags { bits: 0 },
        value: PodValue::Int(mem_fd_or_dma_buf()),
    }
}

/// A builder of stream parameters, in state `State`.
pub struct StreamPipewireBuilder<State> {
    flags: StreamFlags,
    properties: Properties,
    formatting: HashMap<u32, Property>,
    _state: PhantomData<State>,
}

impl<State> StreamPipewireBuilder<State> {
    /// The flags the stream will be connected with.
    pub closed spec fn flags(&self) -> StreamFlags {
        self.flags
    }

    /// The properties the stream will be created with.
    pub closed spec fn props(&self) -> Seq<(Seq<char>, Seq<char>)> {
        self.properties.view()
    }

    /// The format properties, by raw key.
    pub closed spec fn formats(&self) -> Map<u32, Property> {
        self.formatting@
    }

    /// The properties have distinct keys.
    pub closed spec fn wf(&self) -> bool {
        self.properties.wf()
    }

    /// The same parameters, in another state.
    fn transition<NewState>(self) -> (r: StreamPipewireBuilder<NewState>)
        ensures
            r.flags() == self.flags(),
            r.props() == self.props(),
            r.formats() == self.formats(),
            r.wf() == self.wf(),
    {
        StreamPipewireBuilder {
            flags: self.flags,
            properties: self.properties,
            formatting: self.formatting,
            _state: PhantomData,
        }
    }
}

impl StreamPipewireBuilder<NeedFlags> {
    /// A builder with no flag, no property and no format property.
    pub fn new() -> (r: Self)
        ensures
            r.flags() == StreamFlags::spec_empty(),
            r.props() == Seq::<(Seq<char>, Seq<char>)>::empty(),
            r.formats() == Map::<u32, Property>::empty(),
            r.wf(),
    {
        StreamPipewireBuilder {
            properties: Properties::new(),
            flags: StreamFlags::empty(),
            formatting: HashMap::new(),
            _state: PhantomData,
        }
    }

    /// Adds the flags of `flag`.
    pub fn add_flag(self, flag: StreamFlags) -> (r: Self)
        ensures
            r.flags().bits == self.flags().bits | flag.bits,
            r.props() == self.props(),
            r.formats() == self.formats(),
            r.wf() == self.wf(),
    {
        let mut b = self;
        b.flags = b.flags.union(flag);
        b
    }

    /// Removes the flags of `flags`.
    pub fn remove_flags(self, flags: StreamFlags) -> (r: Self)
        ensures
            r.flags().bits == self.flags().bits & !flags.bits,
            r.props() == self.props(),
            r.formats() == self.formats(),
            r.wf() == self.wf(),
    {
        let mut b = self;
        b.flags = b.flags.difference(flags);
        b
    }

    /// Replaces the flags with `flags`.
    pub fn set_flags(self, flags: StreamFlags) -> (r: Self)
        ensures
            r.flags() == flags,
            r.props() == self.props(),
            r.formats() == self.formats(),
            r.wf() == self.wf(),
    {
        let mut b = self;
        b.flags = flags;
        b
    }

    /// On to the properties.
    pub fn next(self) -> (r: StreamPipewireBuilder<NeedProperties>)
        ensures
            r.flags() == self.flags(),
            r.props() == self.props(),
            r.formats() == self.formats(),
            r.wf() == self.wf(),
    {
        self.transition()
    }
}

impl StreamPipewireBuilder<NeedProperties> {
    /// Sets the property `key` to `value`.
    pub fn add_property(self, key: String, value: String) -> (r: Self)
        requires self.wf(),
        ensures
            r.props() == set_entry(self.props(), key@, value@),
            r.flags() == self.flags(),
            r.formats() == self.formats(),
            r.wf(),
    {
        let mut b = self;
        b.properties.insert(key, value);
        b
    }

    /// Replaces the properties with `properties`.
    pub fn set_properties(self, properties: Properties) -> (r: Self)
        requires properties.wf(),
        ensures
            r.props() == properties.view(),
            r.flags() == self.flags(),
            r.formats() == self.formats(),
            r.wf(),
    {
        let mut b = self;
        b.properties = properties;
        b
    }

    /// On to the format properties.
    pub fn next(self) -> (r: StreamPipewireBuilder<NeedFormatting>)
        ensures
            r.flags() == self.flags(),
            r.props() == self.props(),
            r.formats() == self.formats(),
            r.wf() == self.wf(),
    {
        self.transition()
    }
}

impl StreamPipewireBuilder<NeedFormatting> {
    /// Sets `property` under its key, replacing what was there.
    pub fn add_format(self, property: Property) -> (r: Self)
        ensures
            r.formats() == self.formats().insert(property.key, property),
            r.flags() == self.flags(),
            r.props() == self.props(),
            r.wf() == self.wf(),
    {
        let mut b = self;
        let key: u32 = property.key;
        b.formatting.insert(key, property);
        b
    }

    /// Replaces the format properties with those that `properties` stands
    /// for, plus the media type and subtype as ids.
    pub fn set_formats<P: ToSpaProperties>(
        self,
        media_type: MediaType,
        media_subtype: MediaSubtype,
        properties: P,
    ) -> (r: Self)
        ensures
            r.formats() == formats_of(media_type, media_subtype, properties.spa_properties()),
            r.flags() == self.flags(),
            r.props() == self.props(),
            r.wf() == self.wf(),
    {
        let ghost add = properties.spa_properties();
        let mut incoming = properties.to_spa_properties();
        let ks = map_keys(&incoming);
        let mut formatting: HashMap<u32, Property> = HashMap::new();
        let n = ks.len();
        let mut i: usize = 0;
        while i < n
            invariant
                n == ks@.len(),
                i <= n,
                ks@.no_duplicates(),
                ks@.to_set() == add.dom(),
                keys_consistent(add),
                incoming@ == add.remove_keys(ks@.take(i as int).to_set()),
                formatting@ == add.restrict(ks@.take(i as int).to_set()).map_values(
                    |kv: KeyValue| kv_property(kv),
                ),
            decreases n - i,
        {
            let k: u32 = ks[i];
            assert(!ks@.take(i as int).contains(k));
            assert(ks@.to_set().contains(k));
            let kv = incoming.remove(&k).unwrap();
            let ghost g = kv;
            assert(add.contains_key(k));
            assert(g == add[k]);
            let ghost mid = formatting@;
            let p = Property::from(kv);
            assert(p == kv_property(g));
            formatting.insert(k, p);
            proof {
                lemma_take_one_more_to_set(ks@, i as int);
            }
            assert(incoming@ =~= add.remove_keys(ks@.take(i + 1).to_set()));
            assert(formatting@ =~= add.restrict(ks@.take(i + 1).to_set()).map_values(
                |kv: KeyValue| kv_property(kv),
            ));
            i = i + 1;
        }
        assert(ks@.take(n as int) == ks@);
        assert(add.restrict(add.dom()) =~= add);
        let type_property = Property {
            key: FORMAT_MEDIA_TYPE,
            flags: PropertyFlags { bits: 0 },
            value: PodValue::Id(Id(media_type.0)),
        };
        formatting.insert(FORMAT_MEDIA_TYPE, type_property);
        let subtype_property = Property {
            key: FORMAT_MEDIA_SUBTYPE,
            flags: PropertyFlags { bits: 0 },
            value: PodValue::Id(Id(media_subtype.0)),
        };
        formatting.insert(FORMAT_MEDIA_SUBTYPE, subtype_property);
        let mut b = self;
        b.formatting = formatting;
        assert(b.formats() =~= formats_of(media_type, media_subtype, add));
        b
    }

    /// On to the last step.
    pub fn next(self) -> (r: StreamPipewireBuilder<StreamReady>)
        ensures
            r.flags() == self.flags(),
            r.props() == self.props(),
            r.formats() == self.formats(),
            r.wf() == self.wf(),
    {
        self.transition()
    }
}

impl StreamPipewireBuilder<StreamReady> {
    /// Every parameter of the stream: its flags and properties, the format
    /// object (`SPA_PARAM_EnumFormat`) holding the format properties, and the
    /// buffers object (`SPA_PARAM_Buffers`) accepting shared memory or
    /// dma-bufs.
    pub fn build_params(self) -> (r: StreamParams)
        ensures
            r.flags == self.flags(),
            r.properties.view() == self.props(),
            r.format.type_ == TYPE_OBJECT_FORMAT,
            r.format.id == PARAM_ENUM_FORMAT,
            lists_map_values(r.format.properties@, self.formats()),
            r.buffers.type_ == TYPE_OBJECT_PARAM_BUFFERS,
            r.buffers.id == PARAM_BUFFERS,
            r.buffers.properties@ == seq![data_type_property()],
    {
        let format_properties = map_into_values(self.formatting);
        let mut buffer_properties: Vec<Property> = Vec::new();
        buffer_properties.push(
            Property {
                key: PARAM_BUFFERS_DATA_TYPE,
                flags: PropertyFlags { bits: 0 },
                value: PodValue::Int(12),
            },
        );
        assert(buffer_properties@ =~= seq![data_type_property()]);
        StreamParams {
            flags: self.flags,
            properties: self.properties,
            format: Object { type_: TYPE_OBJECT_FORMAT, id: PARAM_ENUM_FORMAT, properties: format_properties },
            buffers: Object {
                type_: TYPE_OBJECT_PARAM_BUFFERS,
                id: PARAM_BUFFERS,
                properties: buffer_properties,
            },
        }
    }
}

} // verus!
