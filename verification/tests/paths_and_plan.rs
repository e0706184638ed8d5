use video_converter::format::{format_from_label, Format};
use video_converter::paths::{dst_path, file_name, output_dir, output_stem};
use video_converter::plan::{ffmpeg_args, plan_conversion, probe_arg, probe_found, report_stream};

#[test]
fn label_mp4_selects_mp4() {
    assert_eq!(format_from_label("mp4"), Format::Mp4);
}

#[test]
fn any_other_label_selects_gif() {
    assert_eq!(format_from_label("gif"), Format::Gif);
    assert_eq!(format_from_label("webm"), Format::Gif);
    assert_eq!(format_from_label(""), Format::Gif);
    assert_eq!(format_from_label("MP4"), Format::Gif);
}

#[test]
fn extensions() {
    assert_eq!(Format::Mp4.extension(), ".mp4");
    assert_eq!(Format::Gif.extension(), ".gif");
}

#[test]
fn file_name_is_the_last_component() {
    assert_eq!(file_name("a/b.webm"), Some("b.webm".to_string()));
    assert_eq!(file_name("b.webm"), Some("b.webm".to_string()));
}

#[test]
fn file_name_ignores_trailing_separators_and_dots() {
    assert_eq!(file_name("dir/"), Some("dir".to_string()));
    assert_eq!(file_name("/usr/bin/"), Some("bin".to_string()));
    assert_eq!(file_name("a//"), Some("a".to_string()));
    assert_eq!(file_name("a/."), Some("a".to_string()));
    assert_eq!(file_name("a/./"), Some("a".to_string()));
}

#[test]
fn some_paths_have_no_file_name() {
    assert_eq!(file_name(""), None);
    assert_eq!(file_name("/"), None);
    assert_eq!(file_name("."), None);
    assert_eq!(file_name(".."), None);
    assert_eq!(file_name("a/.."), None);
    assert_eq!(file_name("a/../"), None);
}

#[test]
fn dots_inside_a_name_are_kept() {
    assert_eq!(file_name("a/..."), Some("...".to_string()));
    assert_eq!(file_name("..a"), Some("..a".to_string()));
}

#[test]
fn stem_of_plain_file_name() {
    assert_eq!(output_stem("clip.webm"), "clip");
}

#[test]
fn stem_takes_the_part_after_the_last_slash() {
    assert_eq!(output_stem("a/b.webm"), "b");
    assert_eq!(output_stem("/home/user/videos/take two.webm"), "take two");
}

#[test]
fn stem_strips_only_the_last_extension() {
    assert_eq!(output_stem("video.old.webm"), "video.old");
}

#[test]
fn stem_of_name_without_extension_is_the_name() {
    assert_eq!(output_stem("noext"), "noext");
    assert_eq!(output_stem("dir/noext"), "noext");
}

#[test]
fn stem_keeps_a_hidden_file_name_whole() {
    assert_eq!(output_stem(".bashrc"), ".bashrc");
    assert_eq!(output_stem("home/.bashrc"), ".bashrc");
}

#[test]
fn stem_of_name_with_trailing_dot() {
    assert_eq!(output_stem("a/b."), "b");
}

#[test]
fn stem_ignores_trailing_separators() {
    assert_eq!(output_stem("dir/"), "dir");
    assert_eq!(output_stem("/usr/bin/"), "bin");
}

#[test]
fn path_without_file_name_falls_back_to_output() {
    assert_eq!(output_stem(""), "output");
    assert_eq!(output_stem("/"), "output");
    assert_eq!(output_stem("a/.."), "output");
    assert_eq!(output_stem("."), "output");
}

#[test]
fn output_dir_is_fixed() {
    assert_eq!(output_dir(), "./test/dist");
}

#[test]
fn dst_path_joins_dir_stem_and_extension() {
    assert_eq!(dst_path("a/b.webm", Format::Mp4), "./test/dist/b.mp4");
    assert_eq!(dst_path("a/b.webm", Format::Gif), "./test/dist/b.gif");
    assert_eq!(dst_path("x/", Format::Mp4), "./test/dist/x.mp4");
    assert_eq!(dst_path("x/..", Format::Mp4), "./test/dist/output.mp4");
}

#[test]
fn mp4_args_carry_the_scale_filter() {
    let args = ffmpeg_args("a/b.webm", "./test/dist/b.mp4", Format::Mp4);
    assert_eq!(
        args,
        vec![
            "-i".to_string(),
            "a/b.webm".to_string(),
            "-vf".to_string(),
            "scale=trunc(iw/2)*2:trunc(ih/2)*2".to_string(),
            "./test/dist/b.mp4".to_string(),
        ]
    );
}

#[test]
fn gif_args_have_no_filter() {
    let args = ffmpeg_args("a/b.webm", "./test/dist/b.gif", Format::Gif);
    assert_eq!(
        args,
        vec![
            "-i".to_string(),
            "a/b.webm".to_string(),
            "./test/dist/b.gif".to_string(),
        ]
    );
}

#[test]
fn probe_arg_asks_for_the_version() {
    assert_eq!(probe_arg(), "-version");
}

#[test]
fn plan_for_missing_dir_creates_it() {
    let plan = plan_conversion("a/b.webm", Format::Mp4, false, false, false);
    assert!(plan.create_dir);
    assert!(!plan.remove_existing);
    assert_eq!(plan.dir, "./test/dist");
    assert_eq!(plan.dst, "./test/dist/b.mp4");
    assert_eq!(
        plan.args,
        vec![
            "-i".to_string(),
            "a/b.webm".to_string(),
            "-vf".to_string(),
            "scale=trunc(iw/2)*2:trunc(ih/2)*2".to_string(),
            "./test/dist/b.mp4".to_string(),
        ]
    );
}

#[test]
fn plan_for_existing_output_removes_it_first() {
    let plan = plan_conversion("a/b.webm", Format::Gif, false, true, true);
    assert!(!plan.create_dir);
    assert!(plan.remove_existing);
    assert_eq!(plan.dst, "./test/dist/b.gif");
    assert_eq!(
        plan.args,
        vec![
            "-i".to_string(),
            "a/b.webm".to_string(),
            "./test/dist/b.gif".to_string(),
        ]
    );
}

#[test]
fn probe_found_needs_a_run_and_a_good_exit() {
    assert!(probe_found(true, true));
    assert!(!probe_found(true, false));
    assert!(!probe_found(false, true));
    assert!(!probe_found(false, false));
}

#[test]
fn report_stream_picks_stdout_on_success() {
    let stdout = b"frames done".to_vec();
    let stderr = b"boom".to_vec();
    assert_eq!(
        report_stream(true, stdout.clone(), stderr.clone()),
        b"frames done".to_vec()
    );
    assert_eq!(report_stream(false, stdout, stderr), b"boom".to_vec());
}
