use esp32_nimble::enums::{
    AdvFilterPolicy, AdvType, ConnMode, DiscMode, OwnAddrType, PowerType, ScanFilterPolicy,
    SecurityIOCap,
};

#[test]
fn security_io_cap_codes() {
    assert_eq!(SecurityIOCap::DisplayOnly.code(), 0x00);
    assert_eq!(SecurityIOCap::DisplayYesNo.code(), 0x01);
    assert_eq!(SecurityIOCap::KeyboardOnly.code(), 0x02);
    assert_eq!(SecurityIOCap::NoInputNoOutput.code(), 0x03);
    assert_eq!(SecurityIOCap::KeyboardDisplay.code(), 0x04);
}

#[test]
fn security_io_cap_from_code() {
    assert_eq!(SecurityIOCap::from_code(0), Some(SecurityIOCap::DisplayOnly));
    assert_eq!(SecurityIOCap::from_code(1), Some(SecurityIOCap::DisplayYesNo));
    assert_eq!(SecurityIOCap::from_code(2), Some(SecurityIOCap::KeyboardOnly));
    assert_eq!(SecurityIOCap::from_code(3), Some(SecurityIOCap::NoInputNoOutput));
    assert_eq!(SecurityIOCap::from_code(4), Some(SecurityIOCap::KeyboardDisplay));
    assert_eq!(SecurityIOCap::from_code(5), None);
    assert_eq!(SecurityIOCap::from_code(255), None);
}

#[test]
fn security_io_cap_round_trip() {
    let mut named = 0;
    for code in 0..=u8::MAX {
        match SecurityIOCap::from_code(code) {
            Some(cap) => {
                assert_eq!(cap.code(), code);
                named += 1;
            }
            None => assert!(code > 4),
        }
    }
    assert_eq!(named, 5);
}

#[test]
fn power_type_codes() {
    assert_eq!(PowerType::ConnHdl0.code(), 0);
    assert_eq!(PowerType::ConnHdl1.code(), 1);
    assert_eq!(PowerType::ConnHdl2.code(), 2);
    assert_eq!(PowerType::ConnHdl3.code(), 3);
    assert_eq!(PowerType::ConnHdl4.code(), 4);
    assert_eq!(PowerType::ConnHdl5.code(), 5);
    assert_eq!(PowerType::ConnHdl6.code(), 6);
    assert_eq!(PowerType::ConnHdl7.code(), 7);
    assert_eq!(PowerType::ConnHdl8.code(), 8);
    assert_eq!(PowerType::Advertising.code(), 9);
    assert_eq!(PowerType::Scan.code(), 10);
    assert_eq!(PowerType::Default.code(), 11);
}

#[test]
fn power_type_from_code() {
    assert_eq!(PowerType::from_code(0), Some(PowerType::ConnHdl0));
    assert_eq!(PowerType::from_code(8), Some(PowerType::ConnHdl8));
    assert_eq!(PowerType::from_code(9), Some(PowerType::Advertising));
    assert_eq!(PowerType::from_code(10), Some(PowerType::Scan));
    assert_eq!(PowerType::from_code(11), Some(PowerType::Default));
    assert_eq!(PowerType::from_code(12), None);
    assert_eq!(PowerType::from_code(u32::MAX), None);
}

#[test]
fn power_type_round_trip() {
    let mut named = 0;
    for code in 0..1000u32 {
        match PowerType::from_code(code) {
            Some(power_type) => {
                assert_eq!(power_type.code(), code);
                named += 1;
            }
            None => assert!(code > 11),
        }
    }
    assert_eq!(named, 12);
}

#[test]
fn own_addr_type_codes() {
    assert_eq!(OwnAddrType::Public.code(), 0x00);
    assert_eq!(OwnAddrType::Random.code(), 0x01);
    assert_eq!(OwnAddrType::RpaPublicDefault.code(), 0x02);
    assert_eq!(OwnAddrType::RpaRandomDefault.code(), 0x03);
}

#[test]
fn own_addr_type_from_code() {
    assert_eq!(OwnAddrType::from_code(0), Some(OwnAddrType::Public));
    assert_eq!(OwnAddrType::from_code(1), Some(OwnAddrType::Random));
    assert_eq!(OwnAddrType::from_code(2), Some(OwnAddrType::RpaPublicDefault));
    assert_eq!(OwnAddrType::from_code(3), Some(OwnAddrType::RpaRandomDefault));
    assert_eq!(OwnAddrType::from_code(4), None);
}

#[test]
fn own_addr_type_round_trip() {
    for code in 0..=u8::MAX {
        match OwnAddrType::from_code(code) {
            Some(addr_type) => assert_eq!(addr_type.code(), code),
            None => assert!(code > 3),
        }
    }
}

#[test]
fn conn_mode_codes() {
    assert_eq!(ConnMode::Non.code(), 0);
    assert_eq!(ConnMode::Dir.code(), 1);
    assert_eq!(ConnMode::Und.code(), 2);
}

#[test]
fn conn_mode_from_code() {
    assert_eq!(ConnMode::from_code(0), Some(ConnMode::Non));
    assert_eq!(ConnMode::from_code(1), Some(ConnMode::Dir));
    assert_eq!(ConnMode::from_code(2), Some(ConnMode::Und));
    assert_eq!(ConnMode::from_code(3), None);
}

#[test]
fn conn_mode_round_trip() {
    for code in 0..=u8::MAX {
        match ConnMode::from_code(code) {
            Some(mode) => assert_eq!(mode.code(), code),
            None => assert!(code > 2),
        }
    }
}

#[test]
fn disc_mode_codes() {
    assert_eq!(DiscMode::Non.code(), 0);
    assert_eq!(DiscMode::Ltd.code(), 1);
    assert_eq!(DiscMode::Gen.code(), 2);
}

#[test]
fn disc_mode_from_code() {
    assert_eq!(DiscMode::from_code(0), Some(DiscMode::Non));
    assert_eq!(DiscMode::from_code(1), Some(DiscMode::Ltd));
    assert_eq!(DiscMode::from_code(2), Some(DiscMode::Gen));
    assert_eq!(DiscMode::from_code(3), None);
}

#[test]
fn disc_mode_round_trip() {
    for code in 0..=u8::MAX {
        match DiscMode::from_code(code) {
            Some(mode) => assert_eq!(mode.code(), code),
            None => assert!(code > 2),
        }
    }
}

#[test]
fn adv_type_codes() {
    assert_eq!(AdvType::Ind.code(), 0);
    assert_eq!(AdvType::DirectInd.code(), 1);
    assert_eq!(AdvType::ScanInd.code(), 2);
    assert_eq!(AdvType::NonconnInd.code(), 3);
}

#[test]
fn adv_type_from_code() {
    assert_eq!(AdvType::from_code(0), Some(AdvType::Ind));
    assert_eq!(AdvType::from_code(1), Some(AdvType::DirectInd));
    assert_eq!(AdvType::from_code(2), Some(AdvType::ScanInd));
    assert_eq!(AdvType::from_code(3), Some(AdvType::NonconnInd));
    assert_eq!(AdvType::from_code(4), None);
}

#[test]
fn adv_type_round_trip() {
    for code in 0..=u8::MAX {
        match AdvType::from_code(code) {
            Some(adv_type) => assert_eq!(adv_type.code(), code),
            None => assert!(code > 3),
        }
    }
}

#[test]
fn scan_filter_policy_codes() {
    assert_eq!(ScanFilterPolicy::NoWl.code(), 0);
    assert_eq!(ScanFilterPolicy::UseWl.code(), 1);
    assert_eq!(ScanFilterPolicy::NoWlInitA.code(), 2);
    assert_eq!(ScanFilterPolicy::UseWlInitA.code(), 3);
}

#[test]
fn scan_filter_policy_from_code() {
    assert_eq!(ScanFilterPolicy::from_code(0), Some(ScanFilterPolicy::NoWl));
    assert_eq!(ScanFilterPolicy::from_code(1), Some(ScanFilterPolicy::UseWl));
    assert_eq!(ScanFilterPolicy::from_code(2), Some(ScanFilterPolicy::NoWlInitA));
    assert_eq!(ScanFilterPolicy::from_code(3), Some(ScanFilterPolicy::UseWlInitA));
    assert_eq!(ScanFilterPolicy::from_code(4), None);
}

#[test]
fn scan_filter_policy_round_trip() {
    for code in 0..=u8::MAX {
        match ScanFilterPolicy::from_code(code) {
            Some(policy) => assert_eq!(policy.code(), code),
            None => assert!(code > 3),
        }
    }
}

#[test]
fn adv_filter_policy_codes() {
    assert_eq!(AdvFilterPolicy::NoFilter.code(), 0);
    assert_eq!(AdvFilterPolicy::Scan.code(), 1);
    assert_eq!(AdvFilterPolicy::Connect.code(), 2);
    assert_eq!(AdvFilterPolicy::Both.code(), 3);
}

#[test]
fn adv_filter_policy_from_code() {
    assert_eq!(AdvFilterPolicy::from_code(0), Some(AdvFilterPolicy::NoFilter));
    assert_eq!(AdvFilterPolicy::from_code(1), Some(AdvFilterPolicy::Scan));
    assert_eq!(AdvFilterPolicy::from_code(2), Some(AdvFilterPolicy::Connect));
    assert_eq!(AdvFilterPolicy::from_code(3), Some(AdvFilterPolicy::Both));
    assert_eq!(AdvFilterPolicy::from_code(4), None);
}

#[test]
fn adv_filter_policy_round_trip() {
    for code in 0..=u8::MAX {
        match AdvFilterPolicy::from_code(code) {
            Some(policy) => assert_eq!(policy.code(), code),
            None => assert!(code > 3),
        }
    }
}

#[test]
fn values_are_copied_and_compared() {
    let mode = ConnMode::Und;
    let copy = mode;
    assert_eq!(mode, copy);
    assert_ne!(mode, ConnMode::Dir);
    assert_eq!(format!("{:?}", SecurityIOCap::KeyboardOnly), "KeyboardOnly");
    assert_eq!(format!("{:?}", AdvFilterPolicy::Both), "Both");
}
