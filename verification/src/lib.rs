//! Background notifier for the VLive video feed.
//!
//! The library polls a remote feed page, extracts one record per feed item,
//! decides which records are new relative to the last-seen record, and hands
//! the new ones to a caller-supplied callback, oldest first and at most once
//! each.  Fetching the page and running the worker thread are left to the
//! surrounding program; everything that decides or computes lives here.

pub mod record;

pub mod detect;

pub mod extract;

pub mod control;

pub use record::ChannelType;
pub use record::VLiveVideo;
pub use record::VideoType;

pub use detect::detect_new;

pub use extract::CandidateNode;
pub use extract::NameAttrs;
pub use extract::ThumbAttrs;
pub use extract::build_snapshot;
pub use extract::extract_record;
pub use extract::parse_u32;
pub use extract::snapshot_from_html;

pub use control::ControlSignal;
pub use control::FetchOutcome;
pub use control::VLive;
pub use control::VLiveCallback;
pub use control::VLiveStopper;
pub use control::Worker;


