use bevy_web_codecs::decode::{
    rgba_buffer_len, DecodeAction, DecodeError, DecodeEvent, DecodeSession, DecodeStage, Frame,
};

fn red_2x2() -> Vec<u8> {
    vec![255, 0, 0, 255, 255, 0, 0, 255, 255, 0, 0, 255, 255, 0, 0, 255]
}

fn run(mime: &str, events: Vec<DecodeEvent>) -> DecodeSession {
    let mut s = DecodeSession::new(mime.to_string());
    for e in events {
        s.advance(e);
    }
    s
}

#[test]
fn rgba_buffer_len_values() {
    assert_eq!(rgba_buffer_len(2, 2), Some(16));
    assert_eq!(rgba_buffer_len(3, 5), Some(60));
    assert_eq!(rgba_buffer_len(0, 7), Some(0));
    if usize::BITS == 64 {
        assert_eq!(rgba_buffer_len(u32::MAX, u32::MAX), None);
        assert_eq!(rgba_buffer_len(65536, 65536), Some(17179869184));
    }
}

#[test]
fn frame_from_raw_checks_length() {
    let f = Frame::from_raw(2, 2, red_2x2()).unwrap();
    assert_eq!(f.width, 2);
    assert_eq!(f.height, 2);
    assert_eq!(f.pixels, red_2x2());
    assert!(Frame::from_raw(2, 3, red_2x2()).is_none());
    assert!(Frame::from_raw(0, 0, vec![]).is_none());
    assert!(Frame::from_raw(1, 1, vec![1, 2, 3]).is_none());
}

#[test]
fn actions_follow_the_stages() {
    let mut s = DecodeSession::new("image/png".to_string());
    assert_eq!(s.next_action(), DecodeAction::QueryMimeSupport);
    s.advance(DecodeEvent::MimeSupport(true));
    assert_eq!(s.next_action(), DecodeAction::Construct);
    s.advance(DecodeEvent::Constructed(Ok(())));
    assert_eq!(s.next_action(), DecodeAction::Decode);
    s.advance(DecodeEvent::Decoded(Ok((3, 5))));
    assert_eq!(s.next_action(), DecodeAction::CopyPixels(60));
    s.advance(DecodeEvent::Copied(Ok(vec![7; 60])));
    assert_eq!(s.next_action(), DecodeAction::Finish);
}

#[test]
fn png_two_by_two_solid_red() {
    let s = run(
        "image/png",
        vec![
            DecodeEvent::MimeSupport(true),
            DecodeEvent::Constructed(Ok(())),
            DecodeEvent::Decoded(Ok((2, 2))),
            DecodeEvent::Copied(Ok(red_2x2())),
        ],
    );
    let f = s.into_result().unwrap().unwrap();
    assert_eq!((f.width, f.height), (2, 2));
    assert_eq!(f.pixels, red_2x2());
}

#[test]
fn unsupported_mime_short_circuits() {
    let mut s = DecodeSession::new("image/tiff".to_string());
    s.advance(DecodeEvent::MimeSupport(false));
    assert_eq!(s.next_action(), DecodeAction::Abort);
    // Later events change nothing and never lead to a pixel copy.
    s.advance(DecodeEvent::Constructed(Ok(())));
    s.advance(DecodeEvent::Decoded(Ok((4, 4))));
    assert_eq!(s.next_action(), DecodeAction::Abort);
    match s.into_result() {
        Some(Err(DecodeError::UnsupportedMimeType(m))) => assert_eq!(m, "image/tiff"),
        _ => panic!("expected an unsupported MIME type"),
    }
}

#[test]
fn failed_decode_gives_no_frame() {
    let s = run(
        "image/png",
        vec![
            DecodeEvent::MimeSupport(true),
            DecodeEvent::Constructed(Ok(())),
            DecodeEvent::Decoded(Err("EncodingError: truncated".to_string())),
            DecodeEvent::Copied(Ok(red_2x2())),
        ],
    );
    assert_eq!(s.next_action(), DecodeAction::Abort);
    match s.into_result() {
        Some(Err(DecodeError::TranscodeError(m))) => assert_eq!(m, "EncodingError: truncated"),
        _ => panic!("expected a transcode error"),
    }
}

#[test]
fn empty_browser_reason_gets_a_message() {
    let s = run(
        "image/png",
        vec![DecodeEvent::MimeSupport(true), DecodeEvent::Constructed(Err(String::new()))],
    );
    match s.into_result() {
        Some(Err(DecodeError::TranscodeError(m))) => assert!(!m.is_empty()),
        _ => panic!("expected a transcode error"),
    }
}

#[test]
fn copy_of_wrong_length_fails() {
    let s = run(
        "image/png",
        vec![
            DecodeEvent::MimeSupport(true),
            DecodeEvent::Constructed(Ok(())),
            DecodeEvent::Decoded(Ok((2, 2))),
            DecodeEvent::Copied(Ok(vec![0; 15])),
        ],
    );
    match s.into_result() {
        Some(Err(DecodeError::TranscodeError(m))) => assert!(!m.is_empty()),
        _ => panic!("expected a transcode error"),
    }
}

#[test]
fn zero_sized_decode_fails() {
    let s = run(
        "image/png",
        vec![
            DecodeEvent::MimeSupport(true),
            DecodeEvent::Constructed(Ok(())),
            DecodeEvent::Decoded(Ok((0, 5))),
        ],
    );
    assert!(matches!(s.stage, DecodeStage::Failed(DecodeError::TranscodeError(_))));
}

#[test]
fn copy_failure_is_a_transcode_error() {
    let s = run(
        "image/webp",
        vec![
            DecodeEvent::MimeSupport(true),
            DecodeEvent::Constructed(Ok(())),
            DecodeEvent::Decoded(Ok((1, 1))),
            DecodeEvent::Copied(Err("copy failed".to_string())),
        ],
    );
    match s.into_result() {
        Some(Err(DecodeError::TranscodeError(m))) => assert_eq!(m, "copy failed"),
        _ => panic!("expected a transcode error"),
    }
}

#[test]
fn unanswered_events_are_ignored_and_unfinished_has_no_result() {
    let mut s = DecodeSession::new("image/gif".to_string());
    s.advance(DecodeEvent::Copied(Ok(vec![1, 2, 3, 4])));
    assert!(matches!(s.stage, DecodeStage::Init));
    s.advance(DecodeEvent::MimeSupport(true));
    assert!(s.into_result().is_none());
}

#[test]
fn animated_first_frame_is_the_same_each_time() {
    let blue: Vec<u8> = [0u8, 0, 255, 255].repeat(4);
    let events = || {
        vec![
            DecodeEvent::MimeSupport(true),
            DecodeEvent::Constructed(Ok(())),
            DecodeEvent::Decoded(Ok((2, 2))),
            DecodeEvent::Copied(Ok(blue.clone())),
        ]
    };
    let a = run("image/gif", events()).into_result().unwrap().unwrap();
    let b = run("image/gif", events()).into_result().unwrap().unwrap();
    assert_eq!(a.pixels, blue);
    assert_eq!(a.pixels, b.pixels);
}
