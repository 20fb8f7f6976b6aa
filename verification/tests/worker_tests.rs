use std::sync::atomic::{AtomicUsize, Ordering};
use std::sync::{Arc, Mutex};
use std::time::Duration;

use vlive::{FetchOutcome, VLive, VLiveCallback, VLiveVideo};

#[derive(Clone)]
struct Recorder {
    log: Arc<Mutex<Vec<(u32, String)>>>,
    in_flight: Arc<AtomicUsize>,
}

impl Recorder {
    fn new() -> Recorder {
        Recorder {
            log: Arc::new(Mutex::new(Vec::new())),
            in_flight: Arc::new(AtomicUsize::new(0)),
        }
    }

    fn seqs(&self) -> Vec<u32> {
        self.log.lock().unwrap().iter().map(|e| e.0).collect()
    }

    fn titles(&self) -> Vec<String> {
        self.log.lock().unwrap().iter().map(|e| e.1.clone()).collect()
    }
}

impl VLiveCallback for Recorder {
    fn on_new(&self, video: VLiveVideo) {
        // No two callback invocations may ever overlap: the engine delivers
        // synchronously from its single worker.
        let depth = self.in_flight.fetch_add(1, Ordering::SeqCst);
        assert_eq!(depth, 0, "overlapping callback invocations");
        self.log.lock().unwrap().push((video.video_seq, video.video_title));
        self.in_flight.fetch_sub(1, Ordering::SeqCst);
    }
}

fn item(seq: &str, title: &str) -> String {
    format!(
        "<div class=\"video_list_cont\">\
         <a class=\"thumb_area\" href=\"/video/{seq}\" data-seq=\"{seq}\" \
         data-ga-name=\"{title}\" data-ga-type=\"VOD\" data-ga-cseq=\"77\" \
         data-ga-cname=\"A Channel\" data-ga-ctype=\"BASIC\">\
         <img src=\"http://img.example/{seq}.jpg\"/></a>\
         <a class=\"name\" href=\"/channels/EBDF\">A Channel</a>\
         </div>",
        seq = seq,
        title = title,
    )
}

fn page(items: &[String]) -> String {
    format!("<html><body><ul>{}</ul></body></html>", items.concat())
}

#[test]
fn first_cycle_delivers_all_records_oldest_first() {
    let recorder = Recorder::new();
    let (mut worker, _stopper, _wait) =
        VLive::new(recorder.clone(), Duration::from_secs(2)).into_parts();
    let html = page(&[item("12", "c"), item("11", "b"), item("10", "a")]);
    worker.process_outcome(FetchOutcome::Content(html));
    assert_eq!(recorder.seqs(), vec![10, 11, 12]);
    assert_eq!(
        recorder.titles(),
        vec![String::from("a"), String::from("b"), String::from("c")]
    );
    // The cursor advanced to the freshest record of the snapshot.
    assert_eq!(worker.cursor, 12);
}

#[test]
fn repeating_a_snapshot_delivers_nothing_again() {
    let recorder = Recorder::new();
    let (mut worker, _stopper, _wait) =
        VLive::new(recorder.clone(), Duration::from_secs(2)).into_parts();
    let html = page(&[item("12", "c"), item("11", "b")]);
    worker.process_outcome(FetchOutcome::Content(html.clone()));
    assert_eq!(recorder.seqs(), vec![11, 12]);
    worker.process_outcome(FetchOutcome::Content(html));
    assert_eq!(recorder.seqs(), vec![11, 12]);
    assert_eq!(worker.cursor, 12);
}

#[test]
fn only_records_above_the_cursor_are_delivered() {
    let recorder = Recorder::new();
    let (mut worker, _stopper, _wait) =
        VLive::new(recorder.clone(), Duration::from_secs(2)).into_parts();
    worker.process_outcome(FetchOutcome::Content(page(&[item("10", "a")])));
    assert_eq!(recorder.seqs(), vec![10]);
    let html = page(&[item("12", "c"), item("11", "b"), item("10", "a")]);
    worker.process_outcome(FetchOutcome::Content(html));
    assert_eq!(recorder.seqs(), vec![10, 11, 12]);
    assert_eq!(worker.cursor, 12);
}

#[test]
fn transient_fetch_error_is_a_no_op_for_the_cycle() {
    let recorder = Recorder::new();
    let (mut worker, _stopper, _wait) =
        VLive::new(recorder.clone(), Duration::from_secs(2)).into_parts();
    worker.process_outcome(FetchOutcome::Content(page(&[item("10", "a")])));
    assert_eq!(worker.cursor, 10);
    worker.process_outcome(FetchOutcome::TransientError);
    assert_eq!(worker.cursor, 10);
    assert_eq!(recorder.seqs(), vec![10]);
    // The next cycle proceeds normally.
    worker.process_outcome(FetchOutcome::Content(page(&[item("11", "b"), item("10", "a")])));
    assert_eq!(recorder.seqs(), vec![10, 11]);
    assert_eq!(worker.cursor, 11);
}

#[test]
fn empty_page_skips_the_cycle() {
    let recorder = Recorder::new();
    let (mut worker, _stopper, _wait) =
        VLive::new(recorder.clone(), Duration::from_secs(2)).into_parts();
    worker.process_outcome(FetchOutcome::Content(page(&[item("10", "a")])));
    worker.process_outcome(FetchOutcome::Content(page(&[])));
    assert_eq!(worker.cursor, 10);
    assert_eq!(recorder.seqs(), vec![10]);
}

#[test]
fn node_with_non_numeric_seq_is_left_out_of_the_snapshot() {
    let recorder = Recorder::new();
    let (mut worker, _stopper, _wait) =
        VLive::new(recorder.clone(), Duration::from_secs(2)).into_parts();
    let html = page(&[item("12", "c"), item("eleven", "bad"), item("10", "a")]);
    worker.process_outcome(FetchOutcome::Content(html));
    assert_eq!(recorder.seqs(), vec![10, 12]);
    assert_eq!(worker.cursor, 12);
}

#[test]
fn node_without_thumb_area_is_skipped() {
    let recorder = Recorder::new();
    let (mut worker, _stopper, _wait) =
        VLive::new(recorder.clone(), Duration::from_secs(2)).into_parts();
    let bad = String::from(
        "<div class=\"video_list_cont\"><a class=\"name\" href=\"/channels/X\">x</a></div>",
    );
    let html = page(&[item("12", "c"), bad]);
    worker.process_outcome(FetchOutcome::Content(html));
    assert_eq!(recorder.seqs(), vec![12]);
}

#[test]
fn extraction_defaults_flow_through_the_page() {
    let recorder = Recorder::new();
    let (mut worker, _stopper, _wait) =
        VLive::new(recorder.clone(), Duration::from_secs(2)).into_parts();
    // A node whose thumb area misses `data-ga-name`: its record gets an
    // empty title.
    let sparse = String::from(
        "<div class=\"video_list_cont\">\
         <a class=\"thumb_area\" href=\"/video/5\" data-seq=\"5\"></a>\
         <a class=\"name\" href=\"/channels/Y\">y</a>\
         </div>",
    );
    worker.process_outcome(FetchOutcome::Content(page(&[sparse])));
    assert_eq!(recorder.seqs(), vec![5]);
    assert_eq!(recorder.titles(), vec![String::new()]);
}

#[test]
fn rapid_cycles_never_overlap_callbacks() {
    let recorder = Recorder::new();
    let (mut worker, _stopper, _wait) =
        VLive::new(recorder.clone(), Duration::from_secs(2)).into_parts();
    let html = page(&[item("3", "c"), item("2", "b"), item("1", "a")]);
    for _ in 0..200 {
        // Rewind the cursor so every cycle delivers the whole snapshot; the
        // recorder asserts that no two deliveries are ever in flight at once.
        worker.cursor = 0;
        worker.process_outcome(FetchOutcome::Content(html.clone()));
    }
    assert_eq!(recorder.seqs().len(), 600);
}
