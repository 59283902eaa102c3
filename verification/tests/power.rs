use esp32_nimble::enums::PowerLevel;

fn levels() -> [PowerLevel; 8] {
    [
        PowerLevel::N12,
        PowerLevel::N9,
        PowerLevel::N6,
        PowerLevel::N3,
        PowerLevel::N0,
        PowerLevel::P3,
        PowerLevel::P6,
        PowerLevel::P9,
    ]
}

#[test]
fn power_level_to_dbm() {
    assert_eq!(PowerLevel::N12.to_dbm(), -12);
    assert_eq!(PowerLevel::N9.to_dbm(), -9);
    assert_eq!(PowerLevel::N6.to_dbm(), -6);
    assert_eq!(PowerLevel::N3.to_dbm(), -3);
    assert_eq!(PowerLevel::N0.to_dbm(), 0);
    assert_eq!(PowerLevel::P3.to_dbm(), 3);
    assert_eq!(PowerLevel::P6.to_dbm(), 6);
    assert_eq!(PowerLevel::P9.to_dbm(), 9);
}

#[test]
fn power_level_codes() {
    assert_eq!(PowerLevel::N12.code(), 0);
    assert_eq!(PowerLevel::N9.code(), 1);
    assert_eq!(PowerLevel::N6.code(), 2);
    assert_eq!(PowerLevel::N3.code(), 3);
    assert_eq!(PowerLevel::N0.code(), 4);
    assert_eq!(PowerLevel::P3.code(), 5);
    assert_eq!(PowerLevel::P6.code(), 6);
    assert_eq!(PowerLevel::P9.code(), 7);
}

#[test]
fn power_level_from_code() {
    for (code, level) in levels().iter().enumerate() {
        assert_eq!(PowerLevel::from_code(code as u32), Some(*level));
    }
    assert_eq!(PowerLevel::from_code(8), None);
    assert_eq!(PowerLevel::from_code(0xff), None);
    assert_eq!(PowerLevel::from_code(u32::MAX), None);
}

#[test]
fn power_level_round_trip() {
    for level in levels() {
        assert_eq!(PowerLevel::from_code(level.code()), Some(level));
    }
    for code in 0..1000u32 {
        match PowerLevel::from_code(code) {
            Some(level) => assert_eq!(level.code(), code),
            None => assert!(code > 7),
        }
    }
}

#[test]
fn power_level_dbm_follows_code() {
    for level in levels() {
        assert_eq!(level.to_dbm() as i64, 3 * level.code() as i64 - 12);
    }
}

#[test]
fn power_level_dbm_is_injective() {
    for a in levels() {
        for b in levels() {
            assert_eq!(a.to_dbm() == b.to_dbm(), a == b);
        }
    }
}

#[test]
fn power_level_dbm_rises_with_code() {
    for a in levels() {
        for b in levels() {
            assert_eq!(a.code() < b.code(), a.to_dbm() < b.to_dbm());
        }
    }
}
