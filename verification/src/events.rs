//! What a stream handler announces about the video it consumes: the media
//! subtype, the buffer types, the pixel format and the DRM modifier, for a
//! handler that reads frames with the CPU and for one that takes GPU buffers.

use std::marker::PhantomData;
use vstd::prelude::*;

use crate::drm::Modifier;
use crate::flags::BufferMaskTypes;
use crate::spa::{MediaSubtype, VideoFormat, MEDIA_SUBTYPE_RAW, VIDEO_FORMAT_BGRA};

verus! {

/// What a stream handler announces about the stream it consumes.
pub trait StreamEventsHandlerMetadata {
    /// The media subtype the handler takes.
    spec fn media_subtype(&self) -> MediaSubtype;

    /// The buffer data types the handler takes.
    spec fn buffer_mode(&self) -> BufferMaskTypes;

    /// The DRM modifier the handler announces.
    spec fn modifier(&self) -> Modifier;

    /// The pixel format the handler takes.
    spec fn video_format(&self) -> VideoFormat;

    /// The media subtype the handler takes.
    fn get_media_subtype(&self) -> (r: MediaSubtype)
        ensures r == self.media_subtype(),
    ;

    /// The buffer data types the handler takes.
    fn get_buffer_mode(&self) -> (r: BufferMaskTypes)
        ensures r == self.buffer_mode(), r.wf(),
    ;

    /// The DRM modifier the handler announces.
    fn get_modifier(&self) -> (r: Modifier)
        ensures r == self.modifier(),
    ;

    /// The pixel format the handler takes.
    fn get_video_format(&self) -> (r: VideoFormat)
        ensures r == self.video_format(),
    ;
}

/// Frames are read by the CPU from mapped shared memory.
pub struct VideoEventsHandlerCPU;

/// Frames stay in GPU memory and are handed over as dma-bufs.
pub struct VideoEventsHandlerGPU;

/// A stream handler, of the kind `Processor`.
pub struct StreamEventsHandler<Processor> {
    _state: PhantomData<Processor>,
}

impl<Processor> StreamEventsHandler<Processor> {
    /// A handler of the kind `Processor`.
    pub fn new() -> (r: Self) {
        StreamEventsHandler { _state: PhantomData }
    }
}

impl StreamEventsHandler<VideoEventsHandlerCPU> {
    /// Does nothing.
    pub fn hola(&self) {
    }
}

impl StreamEventsHandlerMetadata for StreamEventsHandler<VideoEventsHandlerCPU> {
    open spec fn media_subtype(&self) -> MediaSubtype {
        MediaSubtype(MEDIA_SUBTYPE_RAW)
    }

    open spec fn buffer_mode(&self) -> BufferMaskTypes {
        BufferMaskTypes::spec_mem_fd()
    }

    open spec fn modifier(&self) -> Modifier {
        Modifier::Invalid
    }

    open spec fn video_format(&self) -> VideoFormat {
        VideoFormat(VIDEO_FORMAT_BGRA)
    }

    /// Raw video.
    fn get_media_subtype(&self) -> (r: MediaSubtype) {
        MediaSubtype(MEDIA_SUBTYPE_RAW)
    }

    /// Shared memory (`MemFd`) that the CPU maps.
    fn get_buffer_mode(&self) -> (r: BufferMaskTypes) {
        BufferMaskTypes::mem_fd()
    }

    /// No explicit modifier.
    fn get_modifier(&self) -> (r: Modifier) {
        Modifier::Invalid
    }

    /// BGRA pixels.
    fn get_video_format(&self) -> (r: VideoFormat) {
        VideoFormat(VIDEO_FORMAT_BGRA)
    }
}

impl StreamEventsHandlerMetadata for StreamEventsHandler<VideoEventsHandlerGPU> {
    open spec fn media_subtype(&self) -> MediaSubtype {
        MediaSubtype(MEDIA_SUBTYPE_RAW)
    }

    open spec fn buffer_mode(&self) -> BufferMaskTypes {
        BufferMaskTypes::spec_dma_buf()
    }

    open spec fn modifier(&self) -> Modifier {
        Modifier::Linear
    }

    open spec fn video_format(&self) -> VideoFormat {
        VideoFormat(VIDEO_FORMAT_BGRA)
    }

    /// Raw video.
    fn get_media_subtype(&self) -> (r: MediaSubtype) {
        MediaSubtype(MEDIA_SUBTYPE_RAW)
    }

    /// GPU memory handed over as dma-bufs.
    fn get_buffer_mode(&self) -> (r: BufferMaskTypes) {
        BufferMaskTypes::dma_buf()
    }

    /// A linear layout.
    fn get_modifier(&self) -> (r: Modifier) {
        Modifier::Linear
    }

    /// BGRA pixels.
    fn get_video_format(&self) -> (r: VideoFormat) {
        VideoFormat(VIDEO_FORMAT_BGRA)
    }
}

/// Two handlers of one kind announce the same media subtype, buffer types,
/// modifier and pixel format: a handler carries nothing but its kind.
pub proof fn lemma_handlers_answer_alike(
    a: StreamEventsHandler<VideoEventsHandlerCPU>,
    b: StreamEventsHandler<VideoEventsHandlerCPU>,
    c: StreamEventsHandler<VideoEventsHandlerGPU>,
    d: StreamEventsHandler<VideoEventsHandlerGPU>,
)
    ensures
        a.media_subtype() == b.media_subtype(),
        a.buffer_mode() == b.buffer_mode(),
        a.modifier() == b.modifier(),
        a.video_format() == b.video_format(),
        c.media_subtype() == d.media_subtype(),
        c.buffer_mode() == d.buffer_mode(),
        c.modifier() == d.modifier(),
        c.video_format() == d.video_format(),
{
}

/// Frames are read by the CPU.
pub struct VideoProcessorCPU;

/// Frames are read from GPU buffers.
pub struct VideoProcessorGPU;

/// What a frame processor takes: media subtype, buffer types and pixel format.
pub trait ToStreamProcessor {
    /// The media subtype the processor takes.
    spec fn media_subtype(&self) -> MediaSubtype;

    /// The buffer data types the processor takes.
    spec fn buffer_mode(&self) -> BufferMaskTypes;

    /// The pixel format the processor takes.
    spec fn video_format(&self) -> VideoFormat;

    /// The media subtype the processor takes.
    fn get_media_subtype(&self) -> (r: MediaSubtype)
        ensures r == self.media_subtype(),
    ;

    /// The buffer data types the processor takes.
    fn get_buffer_mode(&self) -> (r: BufferMaskTypes)
        ensures r == self.buffer_mode(), r.wf(),
    ;

    /// The pixel format the processor takes.
    fn get_video_format(&self) -> (r: VideoFormat)
        ensures r == self.video_format(),
    ;
}

/// A frame processor, of the kind `Processor`.
pub struct StreamProcessorPipewireBuilder<Processor> {
    _state: PhantomData<Processor>,
}

impl<Processor> StreamProcessorPipewireBuilder<Processor> {
    /// A processor of the kind `Processor`.
    pub fn new() -> (r: Self) {
        StreamProcessorPipewireBuilder { _state: PhantomData }
    }
}

impl ToStreamProcessor for StreamProcessorPipewireBuilder<VideoProcessorCPU> {
    open spec fn media_subtype(&self) -> MediaSubtype {
        MediaSubtype(MEDIA_SUBTYPE_RAW)
    }

    open spec fn buffer_mode(&self) -> BufferMaskTypes {
        BufferMaskTypes::spec_mem_fd()
    }

    open spec fn video_format(&self) -> VideoFormat {
        VideoFormat(VIDEO_FORMAT_BGRA)
    }

    /// Raw video.
    fn get_media_subtype(&self) -> (r: MediaSubtype) {
        MediaSubtype(MEDIA_SUBTYPE_RAW)
    }

    /// Shared memory that the CPU maps.
    fn get_buffer_mode(&self) -> (r: BufferMaskTypes) {
        BufferMaskTypes::mem_fd()
    }

    /// BGRA pixels.
    fn get_video_format(&self) -> (r: VideoFormat) {
        VideoFormat(VIDEO_FORMAT_BGRA)
    }
}

impl ToStreamProcessor for StreamProcessorPipewireBuilder<VideoProcessorGPU> {
    open spec fn media_subtype(&self) -> MediaSubtype {
        MediaSubtype(MEDIA_SUBTYPE_RAW)
    }

    open spec fn buffer_mode(&self) -> BufferMaskTypes {
        BufferMaskTypes::spec_dma_buf()
    }

    open spec fn video_format(&self) -> VideoFormat {
        VideoFormat(VIDEO_FORMAT_BGRA)
    }

    /// Raw video.
    fn get_media_subtype(&self) -> (r: MediaSubtype) {
        MediaSubtype(MEDIA_SUBTYPE_RAW)
    }

    /// GPU memory handed over as dma-bufs.
    fn get_buffer_mode(&self) -> (r: BufferMaskTypes) {
        BufferMaskTypes::dma_buf()
    }

    /// BGRA pixels.
    fn get_video_format(&self) -> (r: VideoFormat) {
        VideoFormat(VIDEO_FORMAT_BGRA)
    }
}

/// What each kind of handler and processor announces: raw video in BGRA
/// pixels (`SPA_VIDEO_FORMAT_BGRA`, 12) for all of them; the CPU kinds take
/// shared memory (`1 << SPA_DATA_MemFd`) and the GPU kinds dma-bufs
/// (`1 << SPA_DATA_DmaBuf`); the CPU handler announces no modifier
/// (`DRM_FORMAT_MOD_INVALID`) and the GPU handler a linear layout.
pub proof fn lemma_capture_kinds_announce_bgra(
    cpu: StreamEventsHandler<VideoEventsHandlerCPU>,
    gpu: StreamEventsHandler<VideoEventsHandlerGPU>,
    cpu_processor: StreamProcessorPipewireBuilder<VideoProcessorCPU>,
    gpu_processor: StreamProcessorPipewireBuilder<VideoProcessorGPU>,
)
    ensures
        VIDEO_FORMAT_BGRA == 12,
        MEDIA_SUBTYPE_RAW == 1,
        cpu.video_format() == VideoFormat(VIDEO_FORMAT_BGRA),
        gpu.video_format() == VideoFormat(VIDEO_FORMAT_BGRA),
        cpu_processor.video_format() == VideoFormat(VIDEO_FORMAT_BGRA),
        gpu_processor.video_format() == VideoFormat(VIDEO_FORMAT_BGRA),
        cpu.media_subtype() == MediaSubtype(MEDIA_SUBTYPE_RAW),
        gpu.media_subtype() == MediaSubtype(MEDIA_SUBTYPE_RAW),
        cpu_processor.media_subtype() == MediaSubtype(MEDIA_SUBTYPE_RAW),
        gpu_processor.media_subtype() == MediaSubtype(MEDIA_SUBTYPE_RAW),
        cpu.buffer_mode().bits == 4,
        gpu.buffer_mode().bits == 8,
        cpu_processor.buffer_mode().bits == 4,
        gpu_processor.buffer_mode().bits == 8,
        cpu.modifier() == Modifier::Invalid,
        gpu.modifier() == Modifier::Linear,
{
}

} // verus!
