use vlive::{detect_new, ChannelType, VLiveVideo, VideoType};

fn rec(seq: u32) -> VLiveVideo {
    VLiveVideo {
        video_id: format!("/video/{}", seq),
        video_seq: seq,
        video_title: format!("title {}", seq),
        video_type: VideoType::VOD,
        video_thumbnail: None,
        channel_id: String::from("/channels/ABC"),
        channel_seq: 1,
        channel_name: String::from("chan"),
        channel_type: ChannelType::BASIC,
    }
}

fn seqs(records: &[VLiveVideo]) -> Vec<u32> {
    records.iter().map(|r| r.video_seq).collect()
}

#[test]
fn idempotent_no_op_when_cursor_is_freshest() {
    let snapshot = vec![rec(5), rec(4), rec(3)];
    let fresh = detect_new(snapshot, 5);
    assert!(fresh.is_empty());
}

#[test]
fn ordering_returns_prefix_oldest_first() {
    // Snapshot [seq 5, seq 4, seq 3] with cursor 3: the new records are the
    // ones at indices 0 and 1, delivered oldest first: [4, 5].
    let snapshot = vec![rec(5), rec(4), rec(3)];
    let fresh = detect_new(snapshot, 3);
    assert_eq!(seqs(&fresh), vec![4, 5]);
    assert_eq!(fresh[0].video_id, "/video/4");
    assert_eq!(fresh[1].video_id, "/video/5");
}

#[test]
fn cursor_record_is_excluded() {
    let snapshot = vec![rec(5), rec(4)];
    let fresh = detect_new(snapshot, 4);
    assert_eq!(seqs(&fresh), vec![5]);
}

#[test]
fn gap_coalescing_delivers_whole_snapshot() {
    // The cursor's record is nowhere in the snapshot: everything is new,
    // oldest first.
    let snapshot = vec![rec(9), rec(8), rec(7)];
    let fresh = detect_new(snapshot, 3);
    assert_eq!(seqs(&fresh), vec![7, 8, 9]);
}

#[test]
fn initial_cursor_zero_delivers_everything() {
    let snapshot = vec![rec(2), rec(1)];
    let fresh = detect_new(snapshot, 0);
    assert_eq!(seqs(&fresh), vec![1, 2]);
}

#[test]
fn empty_snapshot_yields_nothing() {
    let fresh = detect_new(Vec::new(), 7);
    assert!(fresh.is_empty());
}

#[test]
fn only_record_matching_cursor_midway_bounds_the_walk() {
    let snapshot = vec![rec(10), rec(9), rec(8), rec(7), rec(6)];
    let fresh = detect_new(snapshot, 8);
    assert_eq!(seqs(&fresh), vec![9, 10]);
}
