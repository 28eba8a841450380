use ddm_core::cli::{file_stem, output_base_name, parse_command, transposed_name, Command};

fn args(words: &[&str]) -> Vec<String> {
    words.iter().map(|w| w.to_string()).collect()
}

#[test]
fn video_command_carries_the_path() {
    let c = parse_command(&args(&["ddm", "video", "runs/sample.avi"]));
    assert_eq!(c, Command::Video { path: "runs/sample.avi".to_string() });
}

#[test]
fn camera_command() {
    assert_eq!(parse_command(&args(&["ddm", "camera"])), Command::Camera);
}

#[test]
fn anything_else_is_unrecognized() {
    assert_eq!(parse_command(&args(&["ddm"])), Command::Unrecognized);
    assert_eq!(parse_command(&args(&["ddm", "video"])), Command::Unrecognized);
    assert_eq!(parse_command(&args(&["ddm", "pictures", "x.avi"])), Command::Unrecognized);
    assert_eq!(parse_command(&args(&[])), Command::Unrecognized);
    assert_eq!(
        parse_command(&args(&["ddm", "camera", "extra", "words"])),
        Command::Unrecognized
    );
}

#[test]
fn stem_strips_directory_and_extension() {
    assert_eq!(file_stem("clips/movie.mp4"), Some("movie".to_string()));
    assert_eq!(file_stem("a/b/c.d"), Some("c".to_string()));
    assert_eq!(file_stem("noext"), Some("noext".to_string()));
}

#[test]
fn stem_keeps_all_but_the_last_extension() {
    assert_eq!(file_stem("movie.tar.gz"), Some("movie.tar".to_string()));
}

#[test]
fn leading_dot_begins_no_extension() {
    assert_eq!(file_stem(".hidden"), Some(".hidden".to_string()));
    assert_eq!(file_stem("dir/.config"), Some(".config".to_string()));
}

#[test]
fn empty_file_name_has_no_stem() {
    assert_eq!(file_stem("dir/"), None);
    assert_eq!(file_stem(""), None);
}

#[test]
fn base_name_defaults_to_camera() {
    assert_eq!(output_base_name(Some("movie".to_string())), "movie");
    assert_eq!(output_base_name(None), "camera");
}

#[test]
fn transposed_output_gets_the_lag_suffix() {
    assert_eq!(transposed_name("movie"), "movie_vs_tau");
    assert_eq!(transposed_name("camera"), "camera_vs_tau");
}
