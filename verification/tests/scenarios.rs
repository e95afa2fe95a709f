use chrono::TimeZone;
use std::collections::BTreeSet;
use stampit::naming::is_hidden;
use stampit::policy::resolve;
use stampit::policy::Mode;
use stampit::policy::Snapshot;
use stampit::rename::Renamer;
use stampit::rename::Step;
use stampit::run::decide;
use stampit::run::Action;
use stampit::timestamp::DEFAULT_TEMPLATE;

// A JPEG file whose metadata segment holds `text` as the capture date.
fn jpeg_taken_at(text: &[u8]) -> Vec<u8> {
    let mut tiff = vec![0x4d, 0x4d, 0x00, 0x2a, 0, 0, 0, 8];
    tiff.extend_from_slice(&[0, 1, 0x87, 0x69, 0, 4, 0, 0, 0, 1, 0, 0, 0, 26, 0, 0, 0, 0]);
    tiff.extend_from_slice(&[0, 1, 0x90, 0x03, 0, 2]);
    tiff.extend_from_slice(&(text.len() as u32 + 1).to_be_bytes());
    tiff.extend_from_slice(&[0, 0, 0, 44, 0, 0, 0, 0]);
    tiff.extend_from_slice(text);
    tiff.push(0);
    let mut bytes = vec![0xff, 0xd8, 0xff, 0xe1];
    bytes.extend_from_slice(&((2 + 6 + tiff.len()) as u16).to_be_bytes());
    bytes.extend_from_slice(b"Exif\0\0");
    bytes.extend_from_slice(&tiff);
    bytes.extend_from_slice(&[0xff, 0xd9]);
    bytes
}

// Processes one file of a directory held in memory, as a run does: resolve,
// decide, search for the destination, rename. Returns the new name of a
// file that was renamed.
fn process(
    held: &mut BTreeSet<String>,
    name: &str,
    file: &Snapshot,
    mode: Mode,
    template: &str,
    write: bool,
) -> Option<String> {
    if is_hidden(name) {
        return None;
    }
    let date = match decide(resolve(file, mode, template), write, false) {
        Action::Commit(date) => date,
        _ => return None,
    };
    let mut state = Renamer::begin(Some(name), &date, false).unwrap();
    loop {
        let exists = held.contains(&state.candidate());
        match state.step(exists) {
            Step::Probe(next) => state = next,
            Step::Rename(to) => {
                held.remove(name);
                held.insert(to.clone());
                return Some(to);
            },
            _ => return None,
        }
    }
}

#[test]
fn photo_is_renamed_to_its_capture_date() {
    let file =
        Snapshot { contents: Some(jpeg_taken_at(b"2021:05:03 14:22:10")), modified: Some(0) };
    let mut held: BTreeSet<String> = [String::from("IMG_4711.jpg")].into_iter().collect();
    let to = process(&mut held, "IMG_4711.jpg", &file, Mode::Auto, "%Y-%m-%d_%H.%M.%S", true);
    assert_eq!(to, Some(String::from("2021-05-03_14.22.10.jpg")));
    assert!(held.contains("2021-05-03_14.22.10.jpg"));
    assert!(!held.contains("IMG_4711.jpg"));
}

#[test]
fn text_file_is_renamed_to_its_modification_time() {
    let midnight = chrono::Local.with_ymd_and_hms(2022, 1, 1, 0, 0, 0).earliest().unwrap();
    let file = Snapshot {
        contents: Some(b"notes\n".to_vec()),
        modified: Some(midnight.timestamp() as u64),
    };
    let mut held: BTreeSet<String> = [String::from("notes.txt")].into_iter().collect();
    let to = process(&mut held, "notes.txt", &file, Mode::FilesystemOnly, DEFAULT_TEMPLATE, true);
    assert_eq!(to, Some(String::from("2022-01-01_00.00.00.txt")));
    assert!(held.contains("2022-01-01_00.00.00.txt"));
}

#[test]
fn second_photo_of_the_same_moment_gets_a_counter() {
    let file = Snapshot { contents: Some(jpeg_taken_at(b"2021:05:03 14:22:10")), modified: None };
    let mut held: BTreeSet<String> =
        [String::from("first.jpg"), String::from("second.jpg")].into_iter().collect();
    let first = process(&mut held, "first.jpg", &file, Mode::Auto, DEFAULT_TEMPLATE, true);
    let second = process(&mut held, "second.jpg", &file, Mode::Auto, DEFAULT_TEMPLATE, true);
    assert_eq!(first, Some(String::from("2021-05-03_14.22.10.jpg")));
    assert_eq!(second, Some(String::from("2021-05-03_14.22.10-1.jpg")));
}

#[test]
fn upper_case_extension_of_a_photo_is_lowered() {
    let file = Snapshot { contents: Some(jpeg_taken_at(b"2021:05:03 14:22:10")), modified: None };
    let mut held: BTreeSet<String> = [String::from("DSC0001.JPG")].into_iter().collect();
    let to = process(&mut held, "DSC0001.JPG", &file, Mode::MetadataOnly, DEFAULT_TEMPLATE, true);
    assert_eq!(to, Some(String::from("2021-05-03_14.22.10.jpg")));
}

#[test]
fn dry_run_leaves_the_directory_alone() {
    let file =
        Snapshot { contents: Some(jpeg_taken_at(b"2021:05:03 14:22:10")), modified: Some(0) };
    let mut held: BTreeSet<String> =
        [String::from("a.jpg"), String::from("notes.txt")].into_iter().collect();
    let before = held.clone();
    for mode in [Mode::Auto, Mode::MetadataOnly, Mode::FilesystemOnly] {
        assert_eq!(process(&mut held, "a.jpg", &file, mode, DEFAULT_TEMPLATE, false), None);
        assert_eq!(process(&mut held, "notes.txt", &file, mode, DEFAULT_TEMPLATE, false), None);
    }
    assert_eq!(held, before);
}

#[test]
fn hidden_file_is_skipped() {
    let file =
        Snapshot { contents: Some(jpeg_taken_at(b"2021:05:03 14:22:10")), modified: Some(0) };
    let mut held: BTreeSet<String> = [String::from(".DS_Store")].into_iter().collect();
    assert_eq!(process(&mut held, ".DS_Store", &file, Mode::Auto, DEFAULT_TEMPLATE, true), None);
    assert!(held.contains(".DS_Store"));
}

#[test]
fn file_without_any_date_is_skipped() {
    let file = Snapshot { contents: Some(b"notes\n".to_vec()), modified: None };
    let mut held: BTreeSet<String> = [String::from("notes.txt")].into_iter().collect();
    assert_eq!(process(&mut held, "notes.txt", &file, Mode::Auto, DEFAULT_TEMPLATE, true), None);
    assert!(held.contains("notes.txt"));
}
