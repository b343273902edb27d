use async_tempfile::{Error, RandomName, FILE_PREFIX};

#[test]
fn random_name_test_random_name() {
    let first = RandomName::new("test", 4242, 0x7ffd_1234, 1_700_000_000, 15);
    let second = RandomName::new("test", 4242, 0x7ffd_1234, 1_700_000_000, 16);
    assert!(first.as_str().starts_with("test"));
    assert!(second.as_str().starts_with("test"));
    assert_ne!(first.as_str(), second.as_str());
}

#[test]
fn tempfile_test_random_name() {
    let name = RandomName::new(FILE_PREFIX, 1, 2, 3, 4);
    assert!(name.as_str().starts_with(FILE_PREFIX))
}

#[test]
fn timed_name_writes_every_part_in_hex() {
    let name = RandomName::new("p_", 4242, 0xab, 0x10, 0);
    assert_eq!(name.as_str(), "p_1092ab100");
    let name = RandomName::new("", 10, 255, 0xdead_beef, 999_999_999);
    assert_eq!(name.as_str(), "affdeadbeef3b9ac9ff");
}

#[test]
fn uuid_name_is_prefix_and_hyphenated_identifier() {
    let name = RandomName::with_uuid("atmp_", 0xa1a2a3a4b1b2c1c2d1d2d3d4d5d6d7d8);
    assert_eq!(name.as_str(), "atmp_a1a2a3a4-b1b2-c1c2-d1d2-d3d4d5d6d7d8");
    let name = RandomName::with_uuid("x", 1);
    assert_eq!(name.as_str(), "x00000000-0000-0000-0000-000000000001");
}

#[test]
fn random_names_carry_prefix_and_a_version_four_identifier() {
    let first = RandomName::random("test");
    let second = RandomName::random("test");
    let text = first.as_str();
    assert!(text.starts_with("test"));
    assert_eq!(text.len(), 4 + 36);
    assert_eq!(&text[4 + 14..4 + 15], "4");
    assert_eq!(&text[4 + 8..4 + 9], "-");
    assert_ne!(first.as_str(), second.as_str());
}

#[test]
fn error_descriptions() {
    assert_eq!(Error::InvalidDirectory.describe(), "An invalid directory was specified");
    assert_eq!(Error::InvalidFile.describe(), "An invalid file name was specified");
    let io = std::io::Error::new(std::io::ErrorKind::Other, "disk on fire");
    assert_eq!(Error::Io(io).describe(), "disk on fire");
}

#[test]
fn io_errors_convert_into_the_io_variant() {
    let io = std::io::Error::new(std::io::ErrorKind::NotFound, "gone");
    let e = Error::from(io);
    assert!(matches!(e, Error::Io(ref inner) if inner.kind() == std::io::ErrorKind::NotFound));
}
