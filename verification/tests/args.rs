use bytes::Bytes;
use streamhaul::args::{parse_addr_arg, ArgsError, Flag, HostArgs, PreviewArgs, Program};
use streamhaul::media::{FrameId, PixelFormat, Resolution, TimestampUs, VideoFrame};
use streamhaul::ppm::ppm_bytes;

fn line(words: &str) -> Vec<String> {
    words.split_whitespace().map(str::to_owned).collect()
}

#[test]
fn an_empty_line_gives_the_defaults() {
    let host = HostArgs::parse(&[]).unwrap();
    assert_eq!(host.signaling_url, "ws://127.0.0.1:8765");
    assert_eq!(host.session_id_hex, "0".repeat(32));
    assert_eq!(host.bind, "127.0.0.1:0");
    assert!(!host.stream_video);
    assert_eq!((host.frames, host.fps, host.max_fragment_bytes), (120, 30, 65_535));
    let preview = PreviewArgs::parse(&[]).unwrap();
    assert_eq!(preview.max_width, 3_840);
    assert_eq!(preview.bitrate_kbps, 4_000);
    assert_eq!(preview.frames, usize::MAX);
}

#[test]
fn flags_take_the_next_word_and_the_last_one_counts() {
    let args = line(
        "--signaling-url ws://h --session-id ab --bind [::1]:0 --stream-video --frames 7 --fps +60 \
         --max-fragment-bytes 1024 --frames 8",
    );
    let host = HostArgs::parse(&args).unwrap();
    assert_eq!(host.signaling_url, "ws://h");
    assert_eq!(host.session_id_hex, "ab");
    assert_eq!(host.bind, "[::1]:0");
    assert!(host.stream_video);
    assert_eq!((host.frames, host.fps, host.max_fragment_bytes), (8, 60, 1_024));
    let args = line("--max-width 640 --bitrate-kbps 900 --frames 3 --fps 15 --bind --fps");
    let preview = PreviewArgs::parse(&args).unwrap();
    assert_eq!((preview.max_width, preview.bitrate_kbps), (640, 900));
    assert_eq!((preview.frames, preview.fps), (3, 15));
    assert_eq!(preview.bind, "--fps");
}

#[test]
fn unknown_words_are_passed_over() {
    let host = HostArgs::parse(&line("stray --max-width --fps 5 --nope 9")).unwrap();
    assert_eq!(host.fps, 5);
    let preview = PreviewArgs::parse(&line("--stream-video --fps 5")).unwrap();
    assert_eq!(preview.fps, 5);
}

#[test]
fn faulty_lines_are_refused() {
    let host = |words: &str| HostArgs::parse(&line(words)).unwrap_err();
    assert_eq!(host("--bind"), ArgsError::Missing(Flag::Bind));
    assert_eq!(host("--frames x"), ArgsError::NotANumber(Flag::Frames));
    assert_eq!(host("--fps 4294967296"), ArgsError::NotANumber(Flag::Fps));
    assert_eq!(host("--fps 0"), ArgsError::TooSmall(Flag::Fps));
    assert_eq!(
        host("--max-fragment-bytes 1023"),
        ArgsError::TooSmall(Flag::MaxFragmentBytes)
    );
    assert_eq!(HostArgs::parse(&line("--frames 0")).unwrap().frames, 0);
    let preview = |words: &str| PreviewArgs::parse(&line(words)).unwrap_err();
    assert_eq!(preview("--max-width -1"), ArgsError::NotANumber(Flag::MaxWidth));
    assert_eq!(preview("--bitrate-kbps 0"), ArgsError::TooSmall(Flag::BitrateKbps));
}

#[test]
fn refusals_name_the_flag() {
    let say = |e: ArgsError, p: Program| e.to_text(p);
    assert_eq!(
        say(ArgsError::Missing(Flag::SessionId), Program::Host),
        "--session-id requires a value"
    );
    assert_eq!(
        say(ArgsError::NotANumber(Flag::Frames), Program::Host),
        "--frames must be an integer frame count"
    );
    assert_eq!(
        say(ArgsError::NotANumber(Flag::MaxWidth), Program::Preview),
        "--max-width must be a positive integer"
    );
    assert_eq!(
        say(ArgsError::TooSmall(Flag::Fps), Program::Host),
        "--fps must be a positive integer (> 0)"
    );
    assert_eq!(
        say(ArgsError::TooSmall(Flag::MaxFragmentBytes), Program::Preview),
        "--max-fragment-bytes must be >= 1024"
    );
}

#[test]
fn the_first_address_counts() {
    assert_eq!(parse_addr_arg(&[]).unwrap(), "127.0.0.1:8765");
    assert_eq!(parse_addr_arg(&line("x --addr a:1 --addr b:2")).unwrap(), "a:1");
    assert_eq!(
        parse_addr_arg(&line("--addr")).unwrap_err().to_text(),
        "--addr requires a value"
    );
}

#[test]
fn pixmaps_hold_red_green_blue() {
    let frame = VideoFrame {
        data: Bytes::from(vec![1, 2, 3, 255, 4, 5, 6, 255, 7]),
        format: PixelFormat::Bgra8,
        resolution: Resolution::new(2, 1),
        frame_id: FrameId(0),
        capture_ts_us: TimestampUs(0),
    };
    assert_eq!(ppm_bytes(&frame), b"P6\n2 1\n255\n\x03\x02\x01\x06\x05\x04".to_vec());
}
