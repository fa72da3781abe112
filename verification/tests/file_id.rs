use fileshare::file_id::FileId;
use fileshare::suffix::{random_suffix, ID_LENGTH};

const TEST_FILE_ENCODED: &str = "dGVzdF9maWxlLnR4dA==";

#[test]
fn id_length_is_32() {
    assert_eq!(ID_LENGTH, 32);
}

#[test]
fn test_file_upload() {
    let id = FileId::new("test_file.txt", ID_LENGTH);
    // base64 of test_file.txt
    assert!(id.as_str().contains("dGVzdF9maWxlLnR4dA"));
    assert!(id.as_str().starts_with(TEST_FILE_ENCODED));
    assert_eq!(id.as_str().len(), TEST_FILE_ENCODED.len() + 32);
}

#[test]
fn new_encodes_the_name_and_does_not_copy_it() {
    let id = FileId::new("test_file.txt", 0);
    assert_eq!(id.as_str(), TEST_FILE_ENCODED);
    assert_eq!(FileId::new("", 0).as_str(), "");
    assert_eq!(FileId::new("a", 0).as_str(), "YQ==");
    assert_eq!(FileId::new("ab", 0).as_str(), "YWI=");
    assert_eq!(FileId::new("abc", 0).as_str(), "YWJj");
}

#[test]
fn new_uses_the_url_safe_alphabet() {
    assert_eq!(FileId::new("~~~", 0).as_str(), "fn5-");
    assert_eq!(FileId::new("???", 0).as_str(), "Pz8_");
}

#[test]
fn suffix_is_alphanumeric_and_of_the_asked_length() {
    for size in [0usize, 1, 2, 31, 32, 33, 1000] {
        let suffix = random_suffix(size);
        assert_eq!(suffix.chars().count(), size);
        assert!(suffix.chars().all(|c| c.is_ascii_alphanumeric()));
        let id = FileId::new("name", size);
        let text = id.as_str();
        assert_eq!(text.len(), 8 + size);
        assert_eq!(&text[..8], "bmFtZQ==");
        assert!(text[8..].chars().all(|c| c.is_ascii_alphanumeric()));
    }
}

#[test]
fn suffixes_do_not_repeat() {
    let mut seen = std::collections::HashSet::new();
    for _ in 0..20000 {
        let id = FileId::new("test_file.txt", ID_LENGTH);
        let text = id.as_str();
        let suffix = text[text.len() - ID_LENGTH..].to_string();
        assert!(seen.insert(suffix));
    }
}

#[test]
fn suffix_draws_vary() {
    let mut symbols = std::collections::HashSet::new();
    for c in random_suffix(4096).chars() {
        symbols.insert(c);
    }
    assert!(symbols.len() > 1);
}

#[test]
fn from_param_accepts_alphanumerics_and_padding() {
    let text = "0123456789ABCDEFGHIJKLMNOPQRSTUVWXYZabcdefghijklmnopqrstuvwxyz==";
    let id = FileId::from_param(text).unwrap();
    assert_eq!(id.as_str(), text);
    assert_eq!(FileId::from_param("").unwrap().as_str(), "");
    assert_eq!(FileId::from_param("=").unwrap().as_str(), "=");
    let long = "a".repeat(100_000);
    assert_eq!(FileId::from_param(&long).unwrap().as_str(), long);
}

#[test]
fn from_param_rejects_separators_and_control_characters() {
    for bad in [
        "/",
        "a/b",
        "..",
        "../../etc/passwd",
        "..\\..\\windows",
        "a\\b",
        "a\0b",
        "a\nb",
        "a\tb",
        "a\u{7f}b",
        "a\u{85}b",
        "a b",
        "a.b",
        "a-b",
        "a_b",
        "a%2Fb",
        "\u{e9}",
        "abc\u{1F600}",
    ] {
        assert_eq!(FileId::from_param(bad).unwrap_err(), bad);
    }
}

#[test]
fn from_param_accepts_what_new_makes_of_plain_names() {
    let made = FileId::new("test_file.txt", ID_LENGTH);
    let again = FileId::from_param(made.as_str()).unwrap();
    assert_eq!(again.as_str(), made.as_str());
}

#[test]
fn from_param_rejects_the_two_extra_symbols_of_the_encoding() {
    let made = FileId::new("~~~", ID_LENGTH);
    assert!(made.as_str().starts_with("fn5-"));
    assert!(FileId::from_param(made.as_str()).is_err());
}

#[test]
fn from_parts_joins_the_parts() {
    let id = FileId::from_parts(TEST_FILE_ENCODED, "0123456789abcdefghijABCDEFGHIJ_-").unwrap();
    assert_eq!(id.as_str(), "dGVzdF9maWxlLnR4dA==0123456789abcdefghijABCDEFGHIJ_-");
    assert_eq!(FileId::from_parts("", "").unwrap().as_str(), "");
    assert_eq!(FileId::from_parts("abc", "").unwrap().as_str(), "abc");
    assert_eq!(FileId::from_parts("", "xyz").unwrap().as_str(), "xyz");
}

#[test]
fn from_parts_rejects_other_characters() {
    assert!(FileId::from_parts("a/b", "c").is_none());
    assert!(FileId::from_parts("ab", "c/").is_none());
    assert!(FileId::from_parts("..", "c").is_none());
    assert!(FileId::from_parts("ab", "\\").is_none());
    assert!(FileId::from_parts("ab\0", "c").is_none());
}

#[test]
fn file_path_joins_directory_and_id() {
    let id = FileId::from_param("dGVzdA==abc").unwrap();
    assert_eq!(id.file_path("/srv/upload"), "/srv/upload/dGVzdA==abc");
    assert_eq!(id.file_path("upload"), "upload/dGVzdA==abc");
    assert_eq!(id.file_path(""), "/dGVzdA==abc");
    assert_eq!(id.file_path("/tmp/\u{fc}ploads"), "/tmp/\u{fc}ploads/dGVzdA==abc");
}

#[test]
fn test_path_traversal() {
    for name in [
        "../../../../../../../../../../../etc/passwd",
        "..\\..\\..\\windows\\system32\\config",
        "/etc/passwd",
        "..",
        ".",
        "",
        "a\0b",
    ] {
        let id = FileId::new(name, ID_LENGTH);
        let path = id.file_path("/srv/upload");
        let rest = path.strip_prefix("/srv/upload/").unwrap();
        assert_eq!(rest, id.as_str());
        assert!(!rest.is_empty());
        assert!(!rest.contains('/'));
        assert!(!rest.contains('\\'));
        assert!(!rest.contains('.'));
        assert!(rest.chars().all(|c| !c.is_control()));
        let std_path = std::path::Path::new(&path);
        assert_eq!(std_path.parent().unwrap(), std::path::Path::new("/srv/upload"));
        assert_eq!(std_path.file_name().unwrap().to_str().unwrap(), id.as_str());
    }
}
