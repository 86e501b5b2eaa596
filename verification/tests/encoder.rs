use quantum_soft::encoder::{decimal_string, ffmpeg_arguments};

#[test]
fn decimal_string_matches_display() {
    for x in [0u32, 1, 9, 10, 42, 99, 100, 600, 800, 1920, 65535, 1_000_000, u32::MAX] {
        assert_eq!(decimal_string(x), x.to_string());
    }
}

#[test]
fn ffmpeg_arguments_for_default_frame() {
    let args = ffmpeg_arguments(800, 600, "quantum_wave.mp4");
    let expected = vec![
        "-y", "-f", "rawvideo", "-vcodec", "rawvideo", "-s", "800x600", "-pix_fmt", "rgb24", "-r", "30",
        "-i", "-", "-c:v", "libx264", "-pix_fmt", "yuv420p", "quantum_wave.mp4",
    ];
    assert_eq!(args, expected);
}

#[test]
fn ffmpeg_arguments_other_sizes() {
    let args = ffmpeg_arguments(1920, 1080, "out dir/wave.mp4");
    assert_eq!(args.len(), 18);
    assert_eq!(args[6], "1920x1080");
    assert_eq!(args[17], "out dir/wave.mp4");
    let args = ffmpeg_arguments(0, 7, "");
    assert_eq!(args[6], "0x7");
    assert_eq!(args[17], "");
}
