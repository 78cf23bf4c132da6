//! Device-listing parser tests.

use bigbrother::listing::parse_webcam_listing;

#[test]
fn video_lines_yield_named_webcams() {
    let listing = "[dshow @ 0000] \"Integrated Camera\" (video)\r\n\
                   [dshow @ 0000] \"Microphone (Realtek)\" (audio)\r\n\
                   [dshow @ 0000] \"USB Capture\" (video)\n";
    let webcams = parse_webcam_listing(listing);
    assert_eq!(webcams.len(), 2);
    assert_eq!(webcams[0].name, "Integrated Camera");
    assert_eq!(webcams[0].id, "Integrated Camera");
    assert_eq!(webcams[1].name, "USB Capture");
}

#[test]
fn audio_only_listing_falls_back_to_default() {
    let listing = "[dshow @ 0000] \"Microphone\" (audio)\n";
    let webcams = parse_webcam_listing(listing);
    assert_eq!(webcams.len(), 1);
    assert_eq!(webcams[0].id, "0");
    assert_eq!(webcams[0].name, "Default Webcam");
}

#[test]
fn empty_listing_falls_back_to_default() {
    let webcams = parse_webcam_listing("");
    assert_eq!(webcams.len(), 1);
    assert_eq!(webcams[0].name, "Default Webcam");
}

#[test]
fn video_marker_without_quotes_is_skipped() {
    let listing = "something (video) but unquoted\nother noise\n";
    let webcams = parse_webcam_listing(listing);
    assert_eq!(webcams.len(), 1);
    assert_eq!(webcams[0].name, "Default Webcam");
}

#[test]
fn name_is_the_text_between_the_first_two_quotes() {
    let listing = "x \"A \" tricky\" (video)\n";
    let webcams = parse_webcam_listing(listing);
    assert_eq!(webcams.len(), 1);
    assert_eq!(webcams[0].name, "A ");
}

#[test]
fn final_line_without_newline_is_parsed() {
    let listing = "\"Last Cam\" (video)";
    let webcams = parse_webcam_listing(listing);
    assert_eq!(webcams.len(), 1);
    assert_eq!(webcams[0].name, "Last Cam");
}
