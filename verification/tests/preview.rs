use vidreprocess::failure::Failure;
use vidreprocess::naming::{
    fresh_preview_file_name, fresh_transform_data_file_name, fresh_work_file_name,
    preview_file_name, tagged_copy_file_name, transform_data_file_name, work_file_name,
};
use vidreprocess::preview::{
    build_preview_args, check_preview_run, preview_data_url, try_preview_data_url,
};

#[test]
fn data_url_holds_the_picture_in_base64() {
    assert_eq!(preview_data_url(b"abc"), "data:image/jpeg;base64,YWJj");
    assert_eq!(preview_data_url(b"ab"), "data:image/jpeg;base64,YWI=");
    assert_eq!(preview_data_url(b"a"), "data:image/jpeg;base64,YQ==");
    assert_eq!(preview_data_url(b""), "data:image/jpeg;base64,");
    assert_eq!(preview_data_url(&[0xff, 0xd8, 0xff, 0xe0]), "data:image/jpeg;base64,/9j/4A==");
    assert_eq!(preview_data_url(&[0xfb, 0xef, 0xbe]), "data:image/jpeg;base64,++++");
}

#[test]
fn data_url_of_any_picture_that_fits() {
    assert_eq!(try_preview_data_url(b"hello world~").unwrap(), "data:image/jpeg;base64,aGVsbG8gd29ybGR+");
}

#[test]
fn preview_arguments_take_the_first_frame() {
    let expected: Vec<String> =
        ["-y", "-i", "in.mov", "-ss", "0", "-vframes", "1", "-q:v", "2", "/tmp/preview_x.jpg"]
            .iter()
            .map(|s| s.to_string())
            .collect();
    assert_eq!(build_preview_args("in.mov", "/tmp/preview_x.jpg"), expected);
}

#[test]
fn failed_preview_run_carries_the_diagnostics() {
    assert!(check_preview_run(true, "noise").is_ok());
    match check_preview_run(false, "no such file") {
        Err(failure @ Failure::Io(_)) => {
            assert_eq!(failure.message(), "Failed to generate preview: no such file")
        }
        other => panic!("unexpected: {:?}", other),
    }
}

#[test]
fn temporary_file_names() {
    assert_eq!(work_file_name("clip.mov", "1234"), "clip_1234_workinprogress.mp4");
    assert_eq!(transform_data_file_name("clip.mov", "1234"), "clip_1234.trf");
    assert_eq!(tagged_copy_file_name("clip.mov"), "clip_tagged_temp.mp4");
    assert_eq!(preview_file_name("1234"), "preview_1234.jpg");
}

#[test]
fn fresh_names_have_the_shape_and_differ() {
    let first = fresh_work_file_name("clip.mov");
    let second = fresh_work_file_name("clip.mov");
    assert!(first.starts_with("clip_") && first.ends_with("_workinprogress.mp4"));
    assert_eq!(first.len(), "clip_".len() + 36 + "_workinprogress.mp4".len());
    assert_ne!(first, second);
    let data = fresh_transform_data_file_name("a.b.mkv");
    assert!(data.starts_with("a.b_") && data.ends_with(".trf"));
    let picture = fresh_preview_file_name();
    assert!(picture.starts_with("preview_") && picture.ends_with(".jpg"));
    assert_ne!(picture, fresh_preview_file_name());
}
