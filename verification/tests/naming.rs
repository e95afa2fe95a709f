use stampit::naming::candidate;
use stampit::naming::is_hidden;
use stampit::naming::lower_extension;
use std::path::Path;

#[test]
fn upper_case_extension_is_lowered() {
    assert_eq!(lower_extension("IMG_0001.JPG"), "jpg");
}

#[test]
fn mixed_case_extension_is_lowered() {
    assert_eq!(lower_extension("Holiday.JpEg"), "jpeg");
}

#[test]
fn lower_case_extension_is_kept() {
    assert_eq!(lower_extension("notes.txt"), "txt");
}

#[test]
fn extension_is_what_follows_the_last_dot() {
    assert_eq!(lower_extension("archive.tar.GZ"), "gz");
    assert_eq!(lower_extension("2021-05-03_14.22.10.jpg"), "jpg");
}

#[test]
fn name_without_a_dot_has_no_extension() {
    assert_eq!(lower_extension("README"), "");
    assert_eq!(lower_extension(""), "");
}

#[test]
fn leading_dot_alone_starts_no_extension() {
    assert_eq!(lower_extension(".bashrc"), "");
    assert_eq!(lower_extension("."), "");
}

#[test]
fn leading_dot_with_a_later_dot_has_an_extension() {
    assert_eq!(lower_extension(".config.TOML"), "toml");
    assert_eq!(lower_extension(".."), "");
}

#[test]
fn trailing_dot_gives_an_empty_extension() {
    assert_eq!(lower_extension("photo."), "");
}

#[test]
fn extension_beyond_ascii_is_lowered() {
    assert_eq!(lower_extension("bild.ÄÖÜ"), "äöü");
    assert_eq!(lower_extension("été.JPG"), "jpg");
}

#[test]
fn first_candidate_has_no_counter() {
    assert_eq!(candidate("2021-05-03_14.22.10", "jpg", 0), "2021-05-03_14.22.10.jpg");
}

#[test]
fn later_candidates_carry_the_counter() {
    assert_eq!(candidate("2021-05-03_14.22.10", "jpg", 1), "2021-05-03_14.22.10-1.jpg");
    assert_eq!(candidate("2021-05-03_14.22.10", "jpg", 2), "2021-05-03_14.22.10-2.jpg");
    assert_eq!(candidate("2021-05-03_14.22.10", "jpg", 10), "2021-05-03_14.22.10-10.jpg");
    assert_eq!(
        candidate("d", "x", u64::MAX),
        "d-18446744073709551615.x"
    );
}

#[test]
fn candidate_without_extension_keeps_the_dot() {
    assert_eq!(candidate("2022-01-01_00.00.00", "", 0), "2022-01-01_00.00.00.");
    assert_eq!(candidate("2022-01-01_00.00.00", "", 3), "2022-01-01_00.00.00-3.");
}

#[test]
fn candidates_of_one_file_differ() {
    let mut seen: Vec<String> = Vec::new();
    let mut counter: u64 = 0;
    while counter < 120 {
        let name = candidate("2021-05-03", "jpg", counter);
        assert!(!seen.contains(&name));
        seen.push(name);
        counter += 1;
    }
}

#[test]
fn dot_files_are_hidden() {
    assert!(is_hidden(".DS_Store"));
    assert!(is_hidden(".hidden.jpg"));
    assert!(is_hidden("."));
}

#[test]
fn other_files_are_not_hidden() {
    assert!(!is_hidden("photo.jpg"));
    assert!(!is_hidden("a.b"));
    assert!(!is_hidden(""));
    assert!(!is_hidden("_.x"));
}

#[test]
fn extension_agrees_with_the_path_library() {
    let names = [
        "photo.jpg",
        "PHOTO.JPG",
        "archive.tar.gz",
        "README",
        ".bashrc",
        ".config.toml",
        "trailing.",
        "a.b.c.d",
        "no dot at all",
        "x.",
        ".x.",
        "2021-05-03_14.22.10-1.jpg",
        "überraschung.PNG",
    ];
    for name in names {
        let expected = Path::new(name)
            .extension()
            .map(|extension| extension.to_string_lossy().to_lowercase())
            .unwrap_or_default();
        assert_eq!(lower_extension(name), expected);
    }
}
