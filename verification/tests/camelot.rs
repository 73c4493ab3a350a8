use ole::camelot::{CamelotKey, MusicalKey};

#[test]
fn test_camelot_from_musical_key() {
    // Test some common keys
    assert_eq!(
        CamelotKey::from_musical_key(MusicalKey::CMajor),
        CamelotKey {
            number: 8,
            is_major: true
        }
    );
    assert_eq!(
        CamelotKey::from_musical_key(MusicalKey::AMinor),
        CamelotKey {
            number: 8,
            is_major: false
        }
    );
    assert_eq!(
        CamelotKey::from_musical_key(MusicalKey::GMajor),
        CamelotKey {
            number: 9,
            is_major: true
        }
    );
    assert_eq!(
        CamelotKey::from_musical_key(MusicalKey::EMinor),
        CamelotKey {
            number: 9,
            is_major: false
        }
    );
}

#[test]
fn test_camelot_display() {
    assert_eq!(
        CamelotKey {
            number: 8,
            is_major: true
        }
        .display(),
        "8B"
    );
    assert_eq!(
        CamelotKey {
            number: 12,
            is_major: false
        }
        .display(),
        "12A"
    );
}

#[test]
fn test_camelot_parse() {
    assert_eq!(
        CamelotKey::parse("8B"),
        Some(CamelotKey {
            number: 8,
            is_major: true
        })
    );
    assert_eq!(
        CamelotKey::parse("12A"),
        Some(CamelotKey {
            number: 12,
            is_major: false
        })
    );
    assert_eq!(CamelotKey::parse("13A"), None);
    assert_eq!(CamelotKey::parse("0B"), None);
    assert_eq!(CamelotKey::parse("invalid"), None);
}

#[test]
fn test_compatibility_same_key() {
    let key = CamelotKey {
        number: 8,
        is_major: false,
    };
    assert!(key.is_compatible(&key));
}

#[test]
fn test_compatibility_relative_major_minor() {
    // 8A (Am) and 8B (C) are relative major/minor
    let minor = CamelotKey {
        number: 8,
        is_major: false,
    };
    let major = CamelotKey {
        number: 8,
        is_major: true,
    };
    assert!(minor.is_compatible(&major));
    assert!(major.is_compatible(&minor));
}

#[test]
fn test_compatibility_adjacent() {
    let key = CamelotKey {
        number: 8,
        is_major: false,
    };
    let prev = CamelotKey {
        number: 7,
        is_major: false,
    };
    let next = CamelotKey {
        number: 9,
        is_major: false,
    };

    assert!(key.is_compatible(&prev));
    assert!(key.is_compatible(&next));
}

#[test]
fn test_compatibility_wrap_around() {
    // 1A should be compatible with 12A
    let one = CamelotKey {
        number: 1,
        is_major: false,
    };
    let twelve = CamelotKey {
        number: 12,
        is_major: false,
    };
    assert!(one.is_compatible(&twelve));
    assert!(twelve.is_compatible(&one));
}

#[test]
fn test_incompatible_keys() {
    // 8A and 3A are not compatible (too far apart)
    let a = CamelotKey {
        number: 8,
        is_major: false,
    };
    let b = CamelotKey {
        number: 3,
        is_major: false,
    };
    assert!(!a.is_compatible(&b));

    // 8A and 3B are not compatible
    let c = CamelotKey {
        number: 3,
        is_major: true,
    };
    assert!(!a.is_compatible(&c));
}

#[test]
fn test_wheel_distance() {
    let key = CamelotKey {
        number: 8,
        is_major: false,
    };

    // Same key = 0
    assert_eq!(key.wheel_distance(&key), 0);

    // Relative major/minor = 1
    let relative = CamelotKey {
        number: 8,
        is_major: true,
    };
    assert_eq!(key.wheel_distance(&relative), 1);

    // Adjacent same mode = 1
    let adjacent = CamelotKey {
        number: 9,
        is_major: false,
    };
    assert_eq!(key.wheel_distance(&adjacent), 1);

    // Far away = higher
    let far = CamelotKey {
        number: 3,
        is_major: false,
    };
    assert!(key.wheel_distance(&far) > 2);
}

#[test]
fn test_compatible_keys_list() {
    let key = CamelotKey {
        number: 8,
        is_major: false,
    };
    let compatible = key.compatible_keys();

    assert!(compatible.contains(&key)); // Self
    assert!(compatible.contains(&CamelotKey {
        number: 8,
        is_major: true
    })); // Relative
    assert!(compatible.contains(&CamelotKey {
        number: 7,
        is_major: false
    })); // Prev
    assert!(compatible.contains(&CamelotKey {
        number: 9,
        is_major: false
    })); // Next
}

#[test]
fn test_roundtrip_musical_key() {
    // Test that converting to Camelot and back preserves the key
    for key in [
        MusicalKey::CMajor,
        MusicalKey::AMinor,
        MusicalKey::GMajor,
        MusicalKey::EMinor,
        MusicalKey::DbMajor,
        MusicalKey::BbMinor,
    ] {
        let camelot = CamelotKey::from_musical_key(key);
        let back = camelot.to_musical_key();
        assert_eq!(key, back);
    }
}

#[test]
fn test_camelot_integration() {
    // Test that detected keys can be converted to Camelot
    let key = MusicalKey::CMajor;
    let camelot = CamelotKey::from_musical_key(key);
    assert_eq!(camelot.number, 8);
    assert!(camelot.is_major);
}
