use esp32_nimble::enums::{AdvFlag, AuthReq, PairKeyDist};

#[test]
fn truncation_is_idempotent_and_marks_known_patterns() {
    for bits in 0..=u8::MAX {
        let once = AdvFlag::from_bits_truncate(bits);
        assert_eq!(AdvFlag::from_bits_truncate(once.bits()), once);
        assert_eq!(AdvFlag::from_bits(once.bits()), Some(once));
        assert_eq!(AdvFlag::from_bits(bits).is_some(), once.bits() == bits);
    }
}

#[test]
fn union_laws() {
    for a in 0..=u8::MAX {
        for b in 0..=u8::MAX {
            let (x, y) = (PairKeyDist::from_bits_retain(a), PairKeyDist::from_bits_retain(b));
            assert_eq!(x | y, y | x);
            assert!((x | y).contains(x));
            assert!((x | y).contains(y));
        }
        let x = PairKeyDist::from_bits_retain(a);
        assert_eq!(x | x, x);
        assert_eq!(x | PairKeyDist::empty(), x);
    }
}

#[test]
fn intersection_laws() {
    for a in 0..=u8::MAX {
        for b in 0..=u8::MAX {
            let (x, y) = (AuthReq::from_bits_retain(a), AuthReq::from_bits_retain(b));
            assert_eq!(x & y, y & x);
            assert!(x.contains(x & y));
            assert!(y.contains(x & y));
            assert_eq!(x.intersects(y), !(x & y).is_empty());
        }
        let x = AuthReq::from_bits_retain(a);
        assert_eq!(x & x, x);
        assert!((x & AuthReq::empty()).is_empty());
    }
}

#[test]
fn difference_laws() {
    for a in 0..=u8::MAX {
        for b in 0..=u8::MAX {
            let (x, y) = (AdvFlag::from_bits_retain(a), AdvFlag::from_bits_retain(b));
            assert!(x.contains(x - y));
            assert!(!(x - y).intersects(y));
            assert_eq!((x - y) | (x & y), x);
            assert_eq!((x | y) - y, x - y);
        }
    }
}

#[test]
fn symmetric_difference_laws() {
    for a in 0..=u8::MAX {
        for b in 0..=u8::MAX {
            let (x, y) = (PairKeyDist::from_bits_retain(a), PairKeyDist::from_bits_retain(b));
            assert_eq!(x ^ y, y ^ x);
            assert_eq!(x ^ y, (x | y) - (x & y));
            assert_eq!((x ^ y) ^ y, x);
        }
        let x = PairKeyDist::from_bits_retain(a);
        assert!((x ^ x).is_empty());
        assert_eq!(x ^ PairKeyDist::empty(), x);
    }
}

#[test]
fn complement_laws() {
    for a in 0..=u8::MAX {
        let x = AuthReq::from_bits_retain(a);
        let complement = !x;
        assert!(AuthReq::from_bits(complement.bits()).is_some());
        assert!(!complement.intersects(x));
        assert_eq!(AuthReq::from_bits_truncate(a) | complement, AuthReq::all());
        assert_eq!(!complement, AuthReq::from_bits_truncate(a));
    }
}

#[test]
fn containment_is_a_partial_order() {
    for a in 0..=u8::MAX {
        let x = AuthReq::from_bits_retain(a);
        assert!(x.contains(x));
        assert!(x.contains(AuthReq::empty()));
        for b in 0..=u8::MAX {
            let y = AuthReq::from_bits_retain(b);
            if x.contains(y) && y.contains(x) {
                assert_eq!(x, y);
            }
            if x.contains(y) {
                for c in [0u8, 1, 2, 3, 4, 7, 8, 0x55, 0xaa, 0xff] {
                    let z = AuthReq::from_bits_retain(c);
                    if y.contains(z) {
                        assert!(x.contains(z));
                    }
                }
            }
        }
    }
}

#[test]
fn operations_stay_within_known_bits() {
    for a in 0..=u8::MAX {
        for b in 0..=u8::MAX {
            let (x, y) = (AdvFlag::from_bits_truncate(a), AdvFlag::from_bits_truncate(b));
            assert!(AdvFlag::from_bits((x | y).bits()).is_some());
            assert!(AdvFlag::from_bits((x & y).bits()).is_some());
            assert!(AdvFlag::from_bits((x ^ y).bits()).is_some());
            assert!(AdvFlag::from_bits((x - y).bits()).is_some());
        }
    }
}

#[test]
fn is_all_means_adding_all_changes_nothing() {
    for a in 0..=u8::MAX {
        let x = PairKeyDist::from_bits_retain(a);
        assert_eq!(x.is_all(), x | PairKeyDist::all() == x);
        assert_eq!(x.is_all(), x.contains(PairKeyDist::all()));
        if x.is_all() && PairKeyDist::from_bits(a).is_some() {
            assert_eq!(x, PairKeyDist::all());
        }
    }
}
