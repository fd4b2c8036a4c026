use gvrunner::args::ProcessArgs;

fn request(videos: Vec<&str>, colmap: Option<&str>, brush: Option<&str>) -> ProcessArgs {
    ProcessArgs {
        videos: videos.into_iter().map(|v| v.to_string()).collect(),
        output_dir: "/out".to_string(),
        preset: "balanced".to_string(),
        colmap_path: colmap.map(|p| p.to_string()),
        brush_path: brush.map(|p| p.to_string()),
    }
}

#[test]
fn two_videos_no_tools() {
    let args = request(vec!["a.mp4", "b.mp4"], None, None).build_args();
    let expected: Vec<String> = vec![
        "process",
        "--output",
        "/out",
        "--preset",
        "balanced",
        "--video",
        "a.mp4",
        "--video",
        "b.mp4",
    ]
    .into_iter()
    .map(|s| s.to_string())
    .collect();
    assert_eq!(args, expected);
}

#[test]
fn single_video() {
    let args = request(vec!["clip.mp4"], None, None).build_args();
    assert_eq!(args.len(), 7);
    assert_eq!(args[5], "--video");
    assert_eq!(args[6], "clip.mp4");
}

#[test]
fn tool_overrides_follow_videos() {
    let args = request(vec!["a.mp4"], Some("/opt/colmap"), Some("/opt/brush")).build_args();
    let expected: Vec<String> = vec![
        "process",
        "--output",
        "/out",
        "--preset",
        "balanced",
        "--video",
        "a.mp4",
        "--colmap-path",
        "/opt/colmap",
        "--brush-path",
        "/opt/brush",
    ]
    .into_iter()
    .map(|s| s.to_string())
    .collect();
    assert_eq!(args, expected);
}

#[test]
fn brush_only() {
    let args = request(vec!["a.mp4"], None, Some("/opt/brush")).build_args();
    assert_eq!(args.len(), 9);
    assert_eq!(args[7], "--brush-path");
    assert_eq!(args[8], "/opt/brush");
}

#[test]
fn video_order_is_input_order() {
    let args = request(vec!["z.mp4", "a.mp4", "m.mp4"], None, None).build_args();
    assert_eq!(args[6], "z.mp4");
    assert_eq!(args[8], "a.mp4");
    assert_eq!(args[10], "m.mp4");
}
