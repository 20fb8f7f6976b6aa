use vlive::{snapshot_from_html, ChannelType, VideoType};

#[test]
fn snapshot_from_html_reads_every_field_off_the_page() {
    let html = "<html><body><ul>\
         <div class=\"video_list_cont\">\
         <a class=\"thumb_area\" href=\"/video/50000\" data-seq=\"50000\" \
         data-ga-name=\"A Title\" data-ga-type=\"LIVE\" data-ga-cseq=\"77\" \
         data-ga-cname=\"A Channel\" data-ga-ctype=\"PLUS\">\
         <img src=\"http://img.example/50000.jpg\"/></a>\
         <a class=\"name\" href=\"/channels/EBDF\">A Channel</a>\
         </div>\
         <div class=\"video_list_cont\">\
         <a class=\"thumb_area\" href=\"/video/49999\" data-seq=\"49999\" \
         data-ga-name=\"Older\"></a>\
         <a class=\"name\" href=\"/channels/EBDF\">A Channel</a>\
         </div>\
         </ul></body></html>";
    let snapshot = snapshot_from_html(html);
    assert_eq!(snapshot.len(), 2);
    let first = &snapshot[0];
    assert_eq!(first.video_id, "/video/50000");
    assert_eq!(first.video_seq, 50000);
    assert_eq!(first.video_title, "A Title");
    assert_eq!(first.video_type, VideoType::LIVE);
    assert_eq!(first.video_thumbnail.as_deref(), Some("http://img.example/50000.jpg"));
    assert_eq!(first.channel_id, "/channels/EBDF");
    assert_eq!(first.channel_seq, 77);
    assert_eq!(first.channel_name, "A Channel");
    assert_eq!(first.channel_type, ChannelType::PLUS);
    let second = &snapshot[1];
    assert_eq!(second.video_seq, 49999);
    assert_eq!(second.video_type, VideoType::VOD);
    assert_eq!(second.video_thumbnail, None);
    assert_eq!(second.channel_type, ChannelType::BASIC);
    assert_eq!(second.channel_seq, 0);
}

#[test]
fn snapshot_from_html_keeps_page_order() {
    let html = "<html><body>\
         <div class=\"video_list_cont\">\
         <a class=\"thumb_area\" data-seq=\"3\"></a><a class=\"name\"></a></div>\
         <div class=\"video_list_cont\">\
         <a class=\"thumb_area\" data-seq=\"2\"></a><a class=\"name\"></a></div>\
         <div class=\"video_list_cont\">\
         <a class=\"thumb_area\" data-seq=\"1\"></a><a class=\"name\"></a></div>\
         </body></html>";
    let snapshot = snapshot_from_html(html);
    let seqs: Vec<u32> = snapshot.iter().map(|r| r.video_seq).collect();
    assert_eq!(seqs, vec![3, 2, 1]);
}

#[test]
fn page_without_candidates_yields_an_empty_snapshot() {
    let snapshot = snapshot_from_html("<html><body><p>nothing here</p></body></html>");
    assert!(snapshot.is_empty());
}

#[test]
fn last_matching_sub_area_wins() {
    // Two thumb areas in one candidate: the extractor reads the last one, as
    // the document-query contract has it.
    let html = "<html><body>\
         <div class=\"video_list_cont\">\
         <a class=\"thumb_area\" data-seq=\"1\"></a>\
         <a class=\"thumb_area\" data-seq=\"2\"></a>\
         <a class=\"name\"></a></div>\
         </body></html>";
    let snapshot = snapshot_from_html(html);
    assert_eq!(snapshot.len(), 1);
    assert_eq!(snapshot[0].video_seq, 2);
}
