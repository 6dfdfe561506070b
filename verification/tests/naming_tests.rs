use compress_tool::naming::{
    batch_destination, display_name, extended, generate_timestamp, image_output_path,
    output_root, parent_directory, poster_frame_path, poster_path, relative_to,
    single_destination, suffix_since_epoch, suffixed, timestamp_suffix, video_output_path,
    SUFFIX_MODULUS,
};
use compress_tool::paths::{has_no_separator, replace_extension};
use compress_tool::text::decimal_string;

#[test]
fn decimal_strings_are_exact() {
    assert_eq!(decimal_string(0), "0");
    assert_eq!(decimal_string(7), "7");
    assert_eq!(decimal_string(10), "10");
    assert_eq!(decimal_string(1234567890), "1234567890");
    assert_eq!(decimal_string(u64::MAX), "18446744073709551615");
}

#[test]
fn suffix_is_seconds_modulo_one_million() {
    assert_eq!(SUFFIX_MODULUS, 1000000);
    assert_eq!(timestamp_suffix(0), "0");
    assert_eq!(timestamp_suffix(999999), "999999");
    assert_eq!(timestamp_suffix(1000000), "0");
    assert_eq!(timestamp_suffix(1000007), "7");
    assert_eq!(timestamp_suffix(1234567), "234567");
    assert_eq!(timestamp_suffix(1700000123), "123");
    assert_eq!(timestamp_suffix(u64::MAX), "551615");
}

#[test]
fn suffix_from_the_clock_is_a_short_numeral() {
    let suffix = generate_timestamp();
    assert!(!suffix.is_empty());
    assert!(suffix.len() <= 6);
    assert!(suffix.chars().all(|c| c.is_ascii_digit()));
    assert!(suffix == "0" || !suffix.starts_with('0'));
    let value: u64 = suffix.parse().unwrap();
    assert!(value < 1000000);
}

#[test]
fn names_are_joined_with_a_hyphen() {
    assert_eq!(suffixed("photos", "42"), "photos-42");
    assert_eq!(suffixed("", "42"), "-42");
}

#[test]
fn output_root_is_named_after_the_input_folder() {
    assert_eq!(output_root("/data/photos", "/out", "42"), "/out/photos-42");
    assert_eq!(output_root("/data/photos/", "/out", "42"), "/out/photos-42");
    assert_eq!(output_root("photos", "out", "0"), "out/photos-0");
    assert_eq!(output_root("/", "/out", "42"), "/out/-42");
}

#[test]
fn single_output_is_named_after_stem_suffix_and_extension() {
    assert_eq!(single_destination("/data/a.png", "/out", "7", false), "/out/a-7.png");
    assert_eq!(single_destination("/data/a.png", "/out", "7", true), "/out/a-7.webp");
    assert_eq!(
        single_destination("/data/clip.mp4", "out", "123456", false),
        "out/clip-123456.mp4"
    );
    assert_eq!(single_destination("/data/clip.MOV", "/out", "7", true), "/out/clip-7.MOV");
    assert_eq!(single_destination("/data/notes.txt", "/out", "7", true), "/out/notes-7.txt");
    assert_eq!(single_destination("/data/bare", "/out", "7", true), "/out/bare-7");
}

#[test]
fn single_output_keeps_a_stem_with_dots() {
    assert_eq!(
        single_destination("/data/my.clip.mp4", "/out", "42", false),
        "/out/my.clip-42.mp4"
    );
    assert_eq!(
        single_destination("/data/my.photo.png", "/out", "42", true),
        "/out/my.photo-42.webp"
    );
    assert_eq!(
        single_destination("/data/my.photo.png", "/out", "42", false),
        "/out/my.photo-42.png"
    );
    assert_ne!(
        single_destination("/data/my.a.mp4", "/out", "42", false),
        single_destination("/data/my.b.mp4", "/out", "42", false)
    );
}

#[test]
fn extension_is_put_behind_a_dot() {
    assert_eq!(extended("a-7", &Some(String::from("png"))), "a-7.png");
    assert_eq!(extended("my.clip-7", &Some(String::from("mp4"))), "my.clip-7.mp4");
    assert_eq!(extended("a-7", &None), "a-7");
}

#[test]
fn clock_before_the_epoch_counts_as_zero() {
    assert_eq!(suffix_since_epoch(None), "0");
    assert_eq!(suffix_since_epoch(Some(0)), "0");
    assert_eq!(suffix_since_epoch(Some(1234567)), "234567");
    assert_eq!(suffix_since_epoch(Some(1700000123)), suffix_since_epoch(Some(1700000123)));
}

#[test]
fn display_name_is_the_last_component() {
    assert_eq!(display_name("/data/a.png"), "a.png");
    assert_eq!(display_name("/data/photos/"), "photos");
    assert_eq!(display_name("/"), "");
    assert_eq!(display_name("/data/.."), "");
}

#[test]
fn images_get_the_webp_extension_only_when_converting() {
    assert_eq!(image_output_path("/out/a-7", true), "/out/a-7.webp");
    assert_eq!(image_output_path("/out/a-7", false), "/out/a-7");
    assert_eq!(image_output_path("/out/sub/a.png", true), "/out/sub/a.webp");
    assert_eq!(image_output_path("/out/sub/a.png", false), "/out/sub/a.png");
    assert_eq!(image_output_path("/out/my.photo-7.png", true), "/out/my.photo-7.webp");
}

#[test]
fn videos_keep_the_extension_of_the_input() {
    assert_eq!(video_output_path("in.mov", "out/clip-7"), "out/clip-7.mov");
    assert_eq!(video_output_path("/data/clip.mp4", "/out/clip-7"), "/out/clip-7.mp4");
    assert_eq!(video_output_path("/data/clip.MOV", "/out/clip-7"), "/out/clip-7.MOV");
    assert_eq!(video_output_path("/data/clip.mkv", "/out/sub/clip.mkv"), "/out/sub/clip.mkv");
    assert_eq!(video_output_path("/data/clip", "/out/clip-7"), "/out/clip-7.mp4");
    assert_eq!(
        video_output_path("/data/my.clip.mp4", "/out/my.clip-7.mp4"),
        "/out/my.clip-7.mp4"
    );
}

#[test]
fn poster_stands_beside_the_video() {
    assert_eq!(poster_path("/out/clip-7.mp4"), "/out/clip-7-poster.webp");
    assert_eq!(poster_path("/out/clip"), "/out/clip-poster.webp");
    assert_eq!(poster_path("/out/my.clip-7.mp4"), "/out/my.clip-7-poster.webp");
    assert_eq!(poster_frame_path("/out/my.clip-7-poster.webp"), "/out/my.clip-7-poster.jpg");
    assert_eq!(poster_frame_path("/out/clip-7-poster.webp"), "/out/clip-7-poster.jpg");
}

#[test]
fn relative_names_are_taken_from_the_root() {
    assert_eq!(relative_to("/data/photos/sub/a.png", "/data/photos"), "sub/a.png");
    assert_eq!(relative_to("/data/photos/a.png", "/data/photos/"), "a.png");
    assert_eq!(relative_to("/elsewhere/a.png", "/data/photos"), "/elsewhere/a.png");
    assert_eq!(relative_to("/data/photos", "/data/photos"), "");
}

#[test]
fn batch_output_mirrors_the_input_tree() {
    assert_eq!(
        batch_destination("/out/photos-42", "/data/photos", "/data/photos/sub/a.png"),
        "/out/photos-42/sub/a.png"
    );
    assert_eq!(
        batch_destination("/out/photos-42", "/data/photos", "/data/photos/b.mp4"),
        "/out/photos-42/b.mp4"
    );
}

#[test]
fn parent_is_the_directory_of_a_path() {
    assert_eq!(parent_directory("/out/x/a.png"), Some(String::from("/out/x")));
    assert_eq!(parent_directory("a.png"), Some(String::new()));
    assert_eq!(parent_directory("/"), None);
    assert_eq!(parent_directory(""), None);
}

#[test]
fn extensions_are_replaced() {
    assert_eq!(replace_extension("/out/a.png", "webp"), "/out/a.webp");
    assert_eq!(replace_extension("/out/a", "webp"), "/out/a.webp");
    assert_eq!(replace_extension("/out/a.png", ""), "/out/a");
    assert_eq!(replace_extension("/out/a.tar.gz", "zip"), "/out/a.tar.zip");
}

#[test]
fn an_extension_with_a_separator_is_not_applied() {
    assert!(has_no_separator("webp"));
    assert!(has_no_separator(""));
    assert!(!has_no_separator("we/bp"));
    assert_eq!(replace_extension("/out/a.png", "x/y"), "/out/a.png");
}
