//! The data model: one structured record per feed item.

use vstd::prelude::*;

verus! {

/// A video on VLive is either a `VOD` (video on demand), that is a normal
/// uploaded video, or `LIVE`, a live stream.
#[derive(Debug, Clone, Copy, PartialEq, Eq, Structural)]
pub enum VideoType {
    VOD,
    LIVE,
}

/// A channel is either `BASIC` (normal, free to view) or `PLUS`, a special
/// premium channel that needs a subscription.
#[derive(Debug, Clone, Copy, PartialEq, Eq, Structural)]
pub enum ChannelType {
    BASIC,
    PLUS,
}

/// Information about one VLive video or live stream.
///
/// A record is a value: once extracted it is never mutated.
#[derive(Debug)]
pub struct VLiveVideo {
    /// User-facing ID of the video, as seen in links, e.g. `"/video/50000"`.
    pub video_id: String,
    /// Sequential backend ID of the video.  The feed assigns these
    /// monotonically with publication time, and the engine uses this field as
    /// the sole ordering and identity key for novelty detection.
    pub video_seq: u32,
    /// Visible title of the video.
    pub video_title: String,
    /// Whether the item is a normal video or a live stream.
    pub video_type: VideoType,
    /// URL of the thumbnail; some items, especially live streams, have none.
    pub video_thumbnail: Option<String>,
    /// User-facing ID of the channel, e.g. `"/channels/EBDF"`.
    pub channel_id: String,
    /// Sequential backend ID of the channel.
    pub channel_seq: u32,
    /// Visible name of the channel.
    pub channel_name: String,
    /// Whether the channel is free to view or premium.
    pub channel_type: ChannelType,
}

/// The mathematical value of a record: every string replaced by its
/// character sequence.
#[verifier::ext_equal]
pub ghost struct VideoView {
    pub video_id: Seq<char>,
    pub video_seq: u32,
    pub video_title: Seq<char>,
    pub video_type: VideoType,
    pub video_thumbnail: Option<Seq<char>>,
    pub channel_id: Seq<char>,
    pub channel_seq: u32,
    pub channel_name: Seq<char>,
    pub channel_type: ChannelType,
}

impl View for VLiveVideo {
    type V = VideoView;

    open spec fn view(&self) -> VideoView {
        VideoView {
            video_id: self.video_id@,
            video_seq: self.video_seq,
            video_title: self.video_title@,
            video_type: self.video_type,
            video_thumbnail: match self.video_thumbnail {
                Some(s) => Some(s@),
                None => None,
            },
            channel_id: self.channel_id@,
            channel_seq: self.channel_seq,
            channel_name: self.channel_name@,
            channel_type: self.channel_type,
        }
    }
}

/// The views of a sequence of records, element by element.
pub open spec fn video_views(s: Seq<VLiveVideo>) -> Seq<VideoView> {
    s.map_values(|v: VLiveVideo| v@)
}

} // verus!
