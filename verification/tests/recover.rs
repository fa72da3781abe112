use base64::engine::general_purpose::URL_SAFE;
use base64::Engine;
use fileshare::file_id::FileId;
use fileshare::path::{file_name, join};
use fileshare::recover::{
    content_disposition, name_from_decoded, original_name, InvalidIdentifier, CONTENT_TYPE,
};
use fileshare::suffix::ID_LENGTH;

fn round_trip(name: &str) {
    let id = FileId::new(name, ID_LENGTH);
    let path = id.file_path("/srv/upload");
    assert_eq!(original_name(&path, ID_LENGTH), Ok(name.to_string()));
    assert_eq!(original_name(id.as_str(), ID_LENGTH), Ok(name.to_string()));
}

#[test]
fn test_file_download() {
    round_trip("test_file.txt");
}

#[test]
fn test_special_chars() {
    let name = "a/\\b/some/.*file<.txt.zip";
    round_trip(name);
    let id = FileId::new(name, ID_LENGTH);
    assert!(id.as_str().starts_with("YS9cYi9zb21lLy4qZmlsZTwudHh0LnppcA=="));
    assert!(id.as_str().chars().all(|c| c.is_ascii_alphanumeric() || c == '='));
    let path = id.file_path("/srv/upload");
    assert_eq!(file_name(&path), id.as_str());
    assert_eq!(path.matches('/').count(), 3);
}

#[test]
fn round_trip_of_a_very_long_name() {
    let long_file_name = (0..100000)
        .map(|n| n.to_string())
        .collect::<Vec<String>>()
        .join(", ");
    let id = FileId::new(&long_file_name, ID_LENGTH);
    assert_eq!(id.as_str().len(), 4 * ((long_file_name.len() + 2) / 3) + 32);
    assert_eq!(
        original_name(&id.file_path("/srv/upload"), ID_LENGTH),
        Ok(long_file_name)
    );
}

#[test]
fn round_trip_of_unusual_names() {
    for name in [
        "",
        "a",
        "ab",
        "abc",
        "..",
        "../../etc/passwd",
        "..\\..\\boot.ini",
        "nul\0inside",
        "tab\tand\nnewline",
        "\u{65e5}\u{672c}\u{8a9e}.txt",
        "emoji \u{1F600}.png",
        "~~~",
        "???",
        "quote\".txt",
    ] {
        round_trip(name);
    }
}

#[test]
fn round_trip_with_any_suffix_length() {
    for size in [0usize, 1, 5, 32, 64] {
        let id = FileId::new("notes.md", size);
        assert_eq!(original_name(&id.file_path("up"), size), Ok("notes.md".to_string()));
    }
}

#[test]
fn original_name_of_fixed_identifiers() {
    let suffix = "0123456789abcdefghijklmnopqrstuv";
    let stored = format!("/srv/upload/dGVzdF9maWxlLnR4dA=={}", suffix);
    assert_eq!(original_name(&stored, 32), Ok("test_file.txt".to_string()));
    assert_eq!(original_name("dGVzdF9maWxlLnR4dA==", 0), Ok("test_file.txt".to_string()));
    assert_eq!(original_name("YWJjxyz", 3), Ok("abc".to_string()));
    assert_eq!(original_name("xyz", 3), Ok(String::new()));
}

#[test]
fn original_name_counts_characters_not_bytes() {
    let stored = "YWJj\u{e9}\u{e9}\u{e9}";
    assert_eq!(original_name(stored, 3), Ok("abc".to_string()));
}

#[test]
fn original_name_too_short() {
    assert_eq!(original_name("", 1), Err(InvalidIdentifier::TooShort));
    assert_eq!(original_name("abc", 32), Err(InvalidIdentifier::TooShort));
    assert_eq!(original_name("/srv/upload/", 32), Err(InvalidIdentifier::TooShort));
    let just_short = "a".repeat(31);
    assert_eq!(original_name(&just_short, 32), Err(InvalidIdentifier::TooShort));
    assert_eq!(original_name("upload/abcdefg", 4), Err(InvalidIdentifier::NotEncoded));
    assert_eq!(original_name("upload/abcdefg", 8), Err(InvalidIdentifier::TooShort));
    assert_eq!(original_name("upload/abcdefg", 7), Ok(String::new()));
}

#[test]
fn original_name_not_encoded() {
    let suffix = "0123456789abcdefghijklmnopqrstuv";
    for prefix in ["a", "ab", "abc", "YQ=", "YQ", "Y Q==", "YQ==YQ==", "a.b=", "YR==", "ab+c", "====", "=", "YQ==="] {
        let stored = format!("{}{}", prefix, suffix);
        assert_eq!(original_name(&stored, 32), Err(InvalidIdentifier::NotEncoded));
    }
}

#[test]
fn original_name_not_text() {
    let suffix = "0123456789abcdefghijklmnopqrstuv";
    // the bytes ff fe, c0 80 and ed a0 80 are not UTF-8
    for prefix in ["__4=", "wIA=", "7aCA"] {
        let stored = format!("{}{}", prefix, suffix);
        assert_eq!(original_name(&stored, 32), Err(InvalidIdentifier::NotText));
    }
}

#[test]
fn name_from_decoded_maps_each_outcome() {
    assert_eq!(name_from_decoded(URL_SAFE.decode("dGVzdA==")), Ok("test".to_string()));
    assert_eq!(name_from_decoded(Ok(vec![])), Ok(String::new()));
    assert_eq!(
        name_from_decoded(Ok(vec![0xe6, 0x97, 0xa5])),
        Ok("\u{65e5}".to_string())
    );
    assert_eq!(name_from_decoded(Ok(vec![0xff])), Err(InvalidIdentifier::NotText));
    assert_eq!(name_from_decoded(Ok(vec![0xe6, 0x97])), Err(InvalidIdentifier::NotText));
    assert_eq!(
        name_from_decoded(URL_SAFE.decode("not base64")),
        Err(InvalidIdentifier::NotEncoded)
    );
}

#[test]
fn original_name_reads_the_last_segment_only() {
    let suffix = "0123456789abcdefghijklmnopqrstuv";
    let stored = format!("dGVzdA==/YWJj{}", suffix);
    assert_eq!(original_name(&stored, 32), Ok("abc".to_string()));
    let stored = format!("+/+/{}", suffix);
    assert_eq!(original_name(&stored, 32), Ok(String::new()));
}

#[test]
fn file_name_is_the_last_segment() {
    assert_eq!(file_name("/srv/upload/abc"), "abc");
    assert_eq!(file_name("abc"), "abc");
    assert_eq!(file_name("/abc"), "abc");
    assert_eq!(file_name("upload/"), "");
    assert_eq!(file_name(""), "");
    assert_eq!(file_name("/"), "");
    assert_eq!(file_name("a/b/c/d.txt"), "d.txt");
    assert_eq!(file_name("/\u{fc}ploads/\u{e9}t\u{e9}"), "\u{e9}t\u{e9}");
    assert_eq!(file_name("a\\b"), "a\\b");
}

#[test]
fn join_puts_one_separator_between() {
    assert_eq!(join("/srv/upload", "abc"), "/srv/upload/abc");
    assert_eq!(join("", "abc"), "/abc");
    assert_eq!(join("dir", ""), "dir/");
    assert_eq!(file_name(&join("/srv/upload", "abc")), "abc");
}

#[test]
fn content_disposition_names_the_file() {
    assert_eq!(
        content_disposition("test_file.txt"),
        "attachment; filename=\"test_file.txt\""
    );
    assert_eq!(content_disposition(""), "attachment; filename=\"\"");
    assert_eq!(CONTENT_TYPE, "application/octet-stream");
}
