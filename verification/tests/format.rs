use icu_bundle::DataFormat;

fn all() -> [DataFormat; 15] {
    [
    DataFormat::ResourceBundle,
    DataFormat::Collation,
    DataFormat::Dictionary,
    DataFormat::Dat,
    DataFormat::Normalized2,
    DataFormat::CharacterProperty,
    DataFormat::BreakIteration,
    DataFormat::Spoof,
    DataFormat::StringPrep,
    DataFormat::BiDi,
    DataFormat::Case,
    DataFormat::CharacterName,
    DataFormat::ConverterAlias,
    DataFormat::Converter,
    DataFormat::PropertyAlias,
    ]
}

#[test]
fn resource_bundle_versions() {
    let format = DataFormat::ResourceBundle;
    assert!(format.is_acceptable_version([1, 1, 0, 0]));
    assert!(!format.is_acceptable_version([1, 0, 0, 0]));
    assert!(format.is_acceptable_version([2, 0, 0, 0]));
    assert!(format.is_acceptable_version([3, 9, 9, 9]));
    assert!(!format.is_acceptable_version([0, 9, 9, 9]));
    assert!(format.is_acceptable_version([1, 255, 0, 0]));
    assert!(!format.is_acceptable_version([4, 1, 0, 0]));
}

#[test]
fn break_iteration_takes_one_version_only() {
    let format = DataFormat::BreakIteration;
    assert!(format.is_acceptable_version([4, 0, 0, 0]));
    assert!(!format.is_acceptable_version([4, 0, 0, 1]));
    assert!(!format.is_acceptable_version([4, 0, 1, 0]));
    assert!(!format.is_acceptable_version([4, 1, 0, 0]));
    assert!(!format.is_acceptable_version([0, 4, 0, 0]));
    assert!(!format.is_acceptable_version([0, 0, 0, 4]));
    assert!(!format.is_acceptable_version([0, 0, 0, 0]));
    assert!(!format.is_acceptable_version([3, 255, 255, 255]));
    assert!(!format.is_acceptable_version([5, 0, 0, 0]));
    assert!(!format.is_acceptable_version([255, 255, 255, 255]));
}

#[test]
fn break_iteration_agrees_with_the_packed_number() {
    for major in 0..=8u8 {
        for minor in [0u8, 1, 255] {
            for milli in [0u8, 1, 255] {
                for micro in [0u8, 1, 255] {
                    let v = [major, minor, milli, micro];
                    let packed = u32::from_be_bytes(v);
                    assert_eq!(
                        DataFormat::BreakIteration.is_acceptable_version(v),
                        packed == 0x0400_0000
                    );
                }
            }
        }
    }
}

#[test]
fn formats_that_look_at_the_major_version_only() {
    let rules = [
        (DataFormat::Collation, 5u8),
        (DataFormat::Dat, 1),
        (DataFormat::Normalized2, 3),
        (DataFormat::CharacterProperty, 7),
        (DataFormat::BiDi, 2),
        (DataFormat::Case, 3),
        (DataFormat::CharacterName, 1),
        (DataFormat::Converter, 6),
        (DataFormat::PropertyAlias, 2),
    ];
    for (format, wanted) in rules {
        for major in 0..=255u8 {
            assert_eq!(format.is_acceptable_version([major, 0, 0, 0]), major == wanted);
            assert_eq!(format.is_acceptable_version([major, 9, 8, 7]), major == wanted);
        }
    }
}

#[test]
fn dictionary_takes_every_version() {
    assert!(DataFormat::Dictionary.is_acceptable_version([0, 0, 0, 0]));
    assert!(DataFormat::Dictionary.is_acceptable_version([1, 2, 3, 4]));
    assert!(DataFormat::Dictionary.is_acceptable_version([255, 255, 255, 255]));
}

#[test]
fn spoof_versions() {
    let format = DataFormat::Spoof;
    assert!(format.is_acceptable_version([2, 0, 0, 0]));
    assert!(!format.is_acceptable_version([0, 0, 0, 0]));
    assert!(!format.is_acceptable_version([1, 0, 0, 0]));
    assert!(!format.is_acceptable_version([3, 0, 0, 0]));
    assert!(format.is_acceptable_version([1, 1, 0, 0]));
    assert!(format.is_acceptable_version([0, 0, 1, 0]));
    assert!(format.is_acceptable_version([0, 0, 0, 1]));
    assert!(format.is_acceptable_version([9, 0, 0, 1]));
}

#[test]
fn string_prep_versions() {
    let format = DataFormat::StringPrep;
    assert!(format.is_acceptable_version([3, 0, 5, 2]));
    assert!(format.is_acceptable_version([3, 77, 5, 2]));
    assert!(!format.is_acceptable_version([2, 0, 5, 2]));
    assert!(!format.is_acceptable_version([3, 0, 4, 2]));
    assert!(!format.is_acceptable_version([3, 0, 5, 3]));
}

#[test]
fn converter_alias_versions() {
    let format = DataFormat::ConverterAlias;
    assert!(format.is_acceptable_version([3, 0, 1, 0]));
    assert!(format.is_acceptable_version([3, 0, 1, 200]));
    assert!(!format.is_acceptable_version([3, 1, 1, 0]));
    assert!(!format.is_acceptable_version([3, 0, 0, 0]));
    assert!(!format.is_acceptable_version([2, 0, 1, 0]));
}

#[test]
fn tags_are_their_ascii_names() {
    let names: [&[u8; 4]; 15] = [
        b"ResB", b"UCol", b"Dict", b"CmnD", b"Nrm2", b"UPro", b"Brk ", b"Cfu ", b"SPRP", b"BiDi",
        b"cASE", b"unam", b"CvAl", b"cnvt", b"pnam",
    ];
    for (format, name) in all().iter().zip(names) {
        assert_eq!(format.tag_bytes(), *name);
    }
}

#[test]
fn tag_is_its_bytes_high_byte_first() {
    for format in all() {
        assert_eq!(format.tag(), u32::from_be_bytes(format.tag_bytes()));
    }
    assert_eq!(DataFormat::ResourceBundle.tag(), 0x5265_7342);
    assert_eq!(DataFormat::BreakIteration.tag(), 0x4272_6b20);
    assert_eq!(DataFormat::PropertyAlias.tag(), 0x706e_616d);
}

#[test]
fn tags_differ() {
    let formats = all();
    for (i, a) in formats.iter().enumerate() {
        for b in &formats[i + 1..] {
            assert_ne!(a.tag(), b.tag());
        }
    }
}
