use glam::Vec3;
use screen_rotator::decoder::{DecodeError, Feed, FrameDecoder, MAX_INVALID_FRAMES};

fn expect_sample(f: Feed) -> Vec3 {
    match f {
        Feed::Item(Ok(v)) => v,
        other => panic!("expected a sample, got {:?}", other),
    }
}

fn is_pending(f: &Feed) -> bool {
    matches!(f, Feed::Pending)
}

#[test]
fn valid_line_yields_its_sample() {
    let mut d = FrameDecoder::new();
    let v = expect_sample(d.on_line("[0.12, -9.7, 0.4]\n"));
    assert_eq!(v, Vec3::new(0.12, -9.7, 0.4));
    assert!(!d.finished());
}

#[test]
fn integers_and_whitespace_are_accepted() {
    let mut d = FrameDecoder::new();
    let v = expect_sample(d.on_line("  [1, -2, 3]  \r\n"));
    assert_eq!(v, Vec3::new(1.0, -2.0, 3.0));
}

#[test]
fn three_invalid_then_valid_yields_one_sample_and_resets() {
    let mut d = FrameDecoder::new();
    assert!(is_pending(&d.on_line("garbage\n")));
    assert!(is_pending(&d.on_line("[1, 2]\n")));
    assert!(is_pending(&d.on_line("[1, 2, 3, 4]\n")));
    let v = expect_sample(d.on_line("[0.5, 1.5, -2.5]\n"));
    assert_eq!(v, Vec3::new(0.5, 1.5, -2.5));
    // the count of invalid lines starts again from zero
    assert!(is_pending(&d.on_line("x\n")));
    assert!(is_pending(&d.on_line("y\n")));
    assert!(is_pending(&d.on_line("z\n")));
    assert!(!d.finished());
    let w = expect_sample(d.on_line("[0, 0, 1]\n"));
    assert_eq!(w, Vec3::new(0.0, 0.0, 1.0));
}

#[test]
fn four_invalid_lines_end_with_one_error() {
    let mut d = FrameDecoder::new();
    assert_eq!(MAX_INVALID_FRAMES, 4);
    assert!(is_pending(&d.on_line("\n")));
    assert!(is_pending(&d.on_line("{}\n")));
    assert!(is_pending(&d.on_line("[a, b, c]\n")));
    assert!(matches!(
        d.on_line("1 2 3\n"),
        Feed::Item(Err(DecodeError::TooManyInvalidFrames))
    ));
    assert!(d.finished());
    // nothing more, not even for a valid line
    assert!(matches!(d.on_line("[1, 2, 3]\n"), Feed::Ended));
    assert!(matches!(d.on_line("bad\n"), Feed::Ended));
    assert!(matches!(d.on_read_error(), Feed::Ended));
}

#[test]
fn end_of_stream_ends_without_error() {
    let mut d = FrameDecoder::new();
    assert!(is_pending(&d.on_line("bad\n")));
    assert!(matches!(d.on_end(), Feed::Ended));
    assert!(d.finished());
    assert!(matches!(d.on_line("[1, 2, 3]\n"), Feed::Ended));
}

#[test]
fn read_failure_is_a_terminal_error() {
    let mut d = FrameDecoder::new();
    expect_sample(d.on_line("[1, 2, 3]\n"));
    assert!(matches!(
        d.on_read_error(),
        Feed::Item(Err(DecodeError::IoFailure))
    ));
    assert!(d.finished());
    assert!(matches!(d.on_line("[1, 2, 3]\n"), Feed::Ended));
}
