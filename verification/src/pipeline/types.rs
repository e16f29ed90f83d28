//! Core types of the pipeline: timestamps, media kinds and media frames.

use bytes::Bytes;
use vstd::prelude::*;

use crate::pipeline::time::{
    as_signed, as_unsigned, reinterpret_as_i64, reinterpret_as_u64, Duration, Instant,
};

verus! {

/// A presentation or decode time: microseconds since the pipeline started.
#[derive(Debug, Clone, Copy, PartialEq, Eq, Structural, PartialOrd, Ord)]
pub struct Timestamp {
    pub micros: i64,
}

impl Timestamp {
    /// The timestamp `micros` microseconds after the start.
    pub fn from_micros(micros: i64) -> (t: Self)
        ensures
            t.micros == micros,
    {
        Timestamp { micros }
    }

    /// The timestamp `duration` after the start (the microsecond count read
    /// as a signed 64-bit value).
    pub fn from_duration(duration: Duration) -> (t: Self)
        ensures
            t.micros == as_signed(duration.micros),
    {
        Timestamp { micros: reinterpret_as_i64(duration.micros) }
    }

    /// The timestamp of `instant` on a clock started at `base`; instants
    /// before `base` map to zero.
    pub fn from_instant(instant: Instant, base: Instant) -> (t: Self)
        ensures
            t.micros == as_signed(
                crate::pipeline::time::span_between(instant, base) as u64,
            ),
    {
        let duration = instant.saturating_duration_since(base);
        Self::from_duration(duration)
    }

    /// The timestamp as a span since the start (the count read as unsigned).
    pub fn as_duration(&self) -> (d: Duration)
        ensures
            d.micros == as_unsigned(self.micros),
    {
        Duration::from_micros(reinterpret_as_u64(self.micros))
    }

    /// The timestamp `duration` later.
    pub fn add(&self, duration: Duration) -> (t: Self)
        requires
            i64::MIN <= self.micros + as_signed(duration.micros) <= i64::MAX,
        ensures
            t.micros == self.micros + as_signed(duration.micros),
    {
        Timestamp { micros: self.micros + reinterpret_as_i64(duration.micros) }
    }

    /// The timestamp `duration` earlier.
    pub fn sub(&self, duration: Duration) -> (t: Self)
        requires
            i64::MIN <= self.micros - as_signed(duration.micros) <= i64::MAX,
        ensures
            t.micros == self.micros - as_signed(duration.micros),
    {
        Timestamp { micros: self.micros - reinterpret_as_i64(duration.micros) }
    }

    /// The distance between two timestamps.
    pub fn diff(&self, other: Timestamp) -> (d: Duration)
        requires
            i64::MIN < self.micros - other.micros <= i64::MAX,
        ensures
            d.micros == if self.micros >= other.micros {
                self.micros - other.micros
            } else {
                other.micros - self.micros
            },
    {
        let diff_micros = self.micros - other.micros;
        let magnitude: i64 = if diff_micros >= 0 {
            diff_micros
        } else {
            -diff_micros
        };
        Duration::from_micros(magnitude as u64)
    }
}

/// Kind of media data.
#[derive(Debug, Clone, Copy, PartialEq, Eq, Structural)]
pub enum MediaKind {
    /// Video frame data
    Video,
    /// Audio sample data
    Audio,
}

#[verifier::external_type_specification]
#[verifier::external_body]
pub struct ExBytes(bytes::Bytes);

/// The bytes held by a `bytes::Bytes` buffer.
pub uninterp spec fn bytes_content(b: Bytes) -> Seq<u8>;

/// `Clone` for `bytes::Bytes`: the copy shares the buffer, so it holds the same bytes.
pub assume_specification[ <Bytes as Clone>::clone ](b: &Bytes) -> (c: Bytes)
    ensures
        bytes_content(c) == bytes_content(*b),
;

/// `bytes::Bytes::len`: the number of bytes in the buffer.
#[verifier::external_body]
pub(crate) fn bytes_len(b: &Bytes) -> (n: usize)
    ensures
        n == bytes_content(*b).len(),
{
    b.len()
}

/// `bytes::Bytes` as a byte slice (its `AsRef<[u8]>::as_ref`): the slice
/// holds exactly the buffer's bytes.
#[verifier::external_body]
pub(crate) fn bytes_as_slice(b: &Bytes) -> (s: &[u8])
    ensures
        s@ == bytes_content(*b),
{
    b.as_ref()
}

/// A frame of media data (video or audio) with the timing needed to keep
/// audio and video in step.
#[derive(Clone)]
pub struct MediaFrame {
    /// Kind of media (video or audio)
    pub kind: MediaKind,
    /// Encoded or raw media data
    pub data: Bytes,
    /// Presentation timestamp - when this frame should be displayed/played
    pub pts: Timestamp,
    /// Decode timestamp - when this frame should be decoded
    pub dts: Timestamp,
    /// Frames captured at the same instant share a correlation id
    pub correlation_id: u64,
    /// Whether this is a keyframe (for video) or important sync point
    pub is_keyframe: bool,
    /// Frame width (for video only)
    pub width: Option<u32>,
    /// Frame height (for video only)
    pub height: Option<u32>,
    /// Sample rate (for audio only)
    pub sample_rate: Option<u32>,
    /// Number of channels (for audio only)
    pub channels: Option<u16>,
}

impl MediaFrame {
    /// A video frame of the given size.
    pub fn video(
        data: Bytes,
        pts: Timestamp,
        dts: Timestamp,
        correlation_id: u64,
        is_keyframe: bool,
        width: u32,
        height: u32,
    ) -> (f: Self)
        ensures
            f.kind == MediaKind::Video,
            f.data == data,
            f.pts == pts,
            f.dts == dts,
            f.correlation_id == correlation_id,
            f.is_keyframe == is_keyframe,
            f.width == Some(width),
            f.height == Some(height),
            f.sample_rate is None,
            f.channels is None,
    {
        MediaFrame {
            kind: MediaKind::Video,
            data,
            pts,
            dts,
            correlation_id,
            is_keyframe,
            width: Some(width),
            height: Some(height),
            sample_rate: None,
            channels: None,
        }
    }

    /// An audio frame; its decode timestamp is its presentation timestamp.
    pub fn audio(
        data: Bytes,
        pts: Timestamp,
        correlation_id: u64,
        sample_rate: u32,
        channels: u16,
    ) -> (f: Self)
        ensures
            f.kind == MediaKind::Audio,
            f.data == data,
            f.pts == pts,
            f.dts == pts,
            f.correlation_id == correlation_id,
            !f.is_keyframe,
            f.width is None,
            f.height is None,
            f.sample_rate == Some(sample_rate),
            f.channels == Some(channels),
    {
        MediaFrame {
            kind: MediaKind::Audio,
            data,
            pts,
            dts: pts,
            correlation_id,
            is_keyframe: false,
            width: None,
            height: None,
            sample_rate: Some(sample_rate),
            channels: Some(channels),
        }
    }

    /// The size of the frame data in bytes.
    pub fn size(&self) -> (n: usize)
        ensures
            n == bytes_content(self.data).len(),
    {
        bytes_len(&self.data)
    }
}

} // verus!
