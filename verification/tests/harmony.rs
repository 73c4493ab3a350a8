use ole::camelot::{CamelotKey, MusicalKey};

const ALL_KEYS: [MusicalKey; 24] = [
    MusicalKey::CMajor,
    MusicalKey::DbMajor,
    MusicalKey::DMajor,
    MusicalKey::EbMajor,
    MusicalKey::EMajor,
    MusicalKey::FMajor,
    MusicalKey::GbMajor,
    MusicalKey::GMajor,
    MusicalKey::AbMajor,
    MusicalKey::AMajor,
    MusicalKey::BbMajor,
    MusicalKey::BMajor,
    MusicalKey::CMinor,
    MusicalKey::DbMinor,
    MusicalKey::DMinor,
    MusicalKey::EbMinor,
    MusicalKey::EMinor,
    MusicalKey::FMinor,
    MusicalKey::GbMinor,
    MusicalKey::GMinor,
    MusicalKey::AbMinor,
    MusicalKey::AMinor,
    MusicalKey::BbMinor,
    MusicalKey::BMinor,
];

fn key(number: u8, is_major: bool) -> CamelotKey {
    CamelotKey { number, is_major }
}

#[test]
fn every_key_round_trips_through_the_wheel() {
    for k in ALL_KEYS {
        let c = CamelotKey::from_musical_key(k);
        assert!((1..=12).contains(&c.number));
        assert_eq!(c.is_major, k.is_major());
        assert_eq!(c.to_musical_key(), k);
    }
}

#[test]
fn every_place_on_the_wheel_round_trips() {
    for number in 1..=12u8 {
        for is_major in [false, true] {
            let c = key(number, is_major);
            assert_eq!(CamelotKey::from_musical_key(c.to_musical_key()), c);
        }
    }
}

#[test]
fn off_wheel_numbers_fall_back() {
    assert_eq!(key(0, true).to_musical_key(), MusicalKey::CMajor);
    assert_eq!(key(13, false).to_musical_key(), MusicalKey::AMinor);
}

#[test]
fn pitch_classes_and_modes() {
    assert_eq!(MusicalKey::GbMinor.root_pitch_class(), 6);
    assert_eq!(MusicalKey::BMajor.root_pitch_class(), 11);
    assert!(!MusicalKey::AMinor.is_major());
    assert_eq!(MusicalKey::major_from_pitch_class(14), MusicalKey::DMajor);
    assert_eq!(MusicalKey::minor_from_pitch_class(9), MusicalKey::AMinor);
    assert_eq!(MusicalKey::minor_from_pitch_class(255), MusicalKey::EbMinor);
}

#[test]
fn relative_keys_share_a_number() {
    for pc in 0..12u8 {
        let major = CamelotKey::from_musical_key(MusicalKey::major_from_pitch_class(pc));
        let minor = CamelotKey::from_musical_key(MusicalKey::minor_from_pitch_class(pc + 9));
        assert_eq!(major.number, minor.number);
    }
}

#[test]
fn a_fifth_up_is_one_step_forward() {
    for pc in 0..12u8 {
        let here = CamelotKey::from_musical_key(MusicalKey::minor_from_pitch_class(pc));
        let fifth = CamelotKey::from_musical_key(MusicalKey::minor_from_pitch_class(pc + 7));
        let expected = if here.number == 12 { 1 } else { here.number + 1 };
        assert_eq!(fifth.number, expected);
    }
}

#[test]
fn key_names() {
    assert_eq!(MusicalKey::CMajor.display(), "C");
    assert_eq!(MusicalKey::DbMinor.display(), "Dbm");
    assert_eq!(MusicalKey::BbMajor.display(), "Bb");
    assert_eq!(MusicalKey::AMinor.display(), "Am");
}

#[test]
fn display_renders_numbers_of_any_width() {
    assert_eq!(key(1, false).display(), "1A");
    assert_eq!(key(0, true).display(), "0B");
    assert_eq!(key(255, false).display(), "255A");
    assert_eq!(key(100, true).display(), "100B");
}

#[test]
fn parse_accepts_what_u8_accepts() {
    assert_eq!(CamelotKey::parse("  8a \t"), Some(key(8, false)));
    assert_eq!(CamelotKey::parse("12b"), Some(key(12, true)));
    assert_eq!(CamelotKey::parse("+7B"), Some(key(7, true)));
    assert_eq!(CamelotKey::parse("007A"), Some(key(7, false)));
    assert_eq!(CamelotKey::parse("\u{3000}3B\u{2028}"), Some(key(3, true)));
}

#[test]
fn parse_rejects() {
    assert_eq!(CamelotKey::parse(""), None);
    assert_eq!(CamelotKey::parse("B"), None);
    assert_eq!(CamelotKey::parse("é"), None);
    assert_eq!(CamelotKey::parse("8C"), None);
    assert_eq!(CamelotKey::parse("-8A"), None);
    assert_eq!(CamelotKey::parse("+A"), None);
    assert_eq!(CamelotKey::parse("8 A"), None);
    assert_eq!(CamelotKey::parse("256B"), None);
    assert_eq!(CamelotKey::parse("99999999999A"), None);
    assert_eq!(CamelotKey::parse("٣A"), None);
}

#[test]
fn parse_reads_back_display() {
    for number in 0..=255u8 {
        for is_major in [false, true] {
            let c = key(number, is_major);
            assert_eq!(CamelotKey::parse(&c.display()), CamelotKey::new(number, is_major));
        }
    }
}

#[test]
fn new_checks_the_range() {
    assert_eq!(CamelotKey::new(0, true), None);
    assert_eq!(CamelotKey::new(1, true), Some(key(1, true)));
    assert_eq!(CamelotKey::new(12, false), Some(key(12, false)));
    assert_eq!(CamelotKey::new(13, false), None);
}

#[test]
fn exact_wheel_distances() {
    assert_eq!(key(8, false).wheel_distance(&key(3, false)), 5);
    assert_eq!(key(1, false).wheel_distance(&key(12, true)), 2);
    assert_eq!(key(8, false).wheel_distance(&key(2, true)), 7);
    assert_eq!(key(2, true).wheel_distance(&key(8, false)), 7);
    assert_eq!(key(5, true).wheel_distance(&key(5, false)), 1);
}

#[test]
fn compatibility_is_distance_at_most_one() {
    for a in 1..=12u8 {
        for b in 1..=12u8 {
            for ma in [false, true] {
                for mb in [false, true] {
                    let x = key(a, ma);
                    let y = key(b, mb);
                    assert_eq!(x.is_compatible(&y), x.wheel_distance(&y) <= 1);
                    assert_eq!(x.is_compatible(&y), y.is_compatible(&x));
                    assert_eq!(x.wheel_distance(&y), y.wheel_distance(&x));
                    assert_eq!(x.compatible_keys().contains(&y), x.is_compatible(&y));
                }
            }
        }
    }
}

#[test]
fn compatible_keys_wrap_round_the_wheel() {
    assert_eq!(
        key(1, true).compatible_keys(),
        vec![key(1, true), key(1, false), key(12, true), key(2, true)]
    );
    assert_eq!(
        key(12, false).compatible_keys(),
        vec![key(12, false), key(12, true), key(11, false), key(1, false)]
    );
}

#[test]
fn off_wheel_keys_keep_the_byte_arithmetic() {
    // 200 as i8 is -56: the gap to 3 is 59, beyond a step.
    assert!(!key(200, true).is_compatible(&key(3, true)));
    assert!(key(200, true).is_compatible(&key(200, false)));
    // 0 and 11 are 11 apart, which `is_compatible` takes for the wrap.
    assert!(key(0, true).is_compatible(&key(11, true)));
    // A gap of 20 is 12 - 20 = -8 the short way, which wraps to 248 as u8.
    assert_eq!(key(30, true).wheel_distance(&key(10, true)), 248);
}
