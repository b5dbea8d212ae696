use gt7_telemetry::flags::{
    PacketFlags, ASM_ACTIVE, CAR_ON_TRACK, DEFINED_FLAG_BITS, HAND_BRAKE_ACTIVE, HAS_TURBO,
    HIGH_BEAM_ACTIVE, IN_GEAR, LIGHTS_ACTIVE, LOADING_OR_PROCESSING, LOW_BEAM_ACTIVE, PAUSED,
    REV_LIMITER_BLINK_ALERT_ACTIVE, TCS_ACTIVE,
};

#[test]
fn test_flag_operations() {
    let mut flags = PacketFlags::empty();
    assert_eq!(flags, PacketFlags::from_bits(0).unwrap());
    assert!(!flags.contains(PacketFlags::car_on_track()));

    flags.insert(PacketFlags::car_on_track());
    assert!(flags.contains(PacketFlags::car_on_track()));
    assert!(flags.intersects(PacketFlags::car_on_track() | PacketFlags::paused()));
    assert!(!flags.contains(PacketFlags::paused()));

    flags.insert(PacketFlags::paused());
    assert!(flags.contains(PacketFlags::car_on_track() | PacketFlags::paused()));
    assert!(flags.contains(PacketFlags::car_on_track()));
    assert!(flags.contains(PacketFlags::paused()));

    flags.remove(PacketFlags::car_on_track());
    assert!(!flags.contains(PacketFlags::car_on_track()));
    assert!(flags.contains(PacketFlags::paused()));

    flags.toggle(PacketFlags::paused());
    assert!(!flags.contains(PacketFlags::paused()));
    flags.toggle(PacketFlags::paused());
    assert!(flags.contains(PacketFlags::paused()));
}

#[test]
fn test_from_bits_and_bits() {
    let raw_value: u16 = PacketFlags::car_on_track().bits() | PacketFlags::in_gear().bits();
    let flags = PacketFlags::from_bits_truncate(raw_value);

    assert!(flags.contains(PacketFlags::car_on_track()));
    assert!(flags.contains(PacketFlags::in_gear()));
    assert!(!flags.contains(PacketFlags::paused()));
    assert_eq!(flags.bits(), raw_value);

    let all_defined_flags = PacketFlags::car_on_track()
        | PacketFlags::paused()
        | PacketFlags::loading_or_processing()
        | PacketFlags::in_gear()
        | PacketFlags::has_turbo()
        | PacketFlags::rev_limiter_blink_alert_active()
        | PacketFlags::hand_brake_active()
        | PacketFlags::lights_active()
        | PacketFlags::high_beam_active()
        | PacketFlags::low_beam_active()
        | PacketFlags::asm_active()
        | PacketFlags::tcs_active();
    assert_eq!(PacketFlags::all().bits(), all_defined_flags.bits());

    let truncated = PacketFlags::from_bits_truncate(0xFFFF);
    assert_eq!(truncated, PacketFlags::all());

    let invalid_bits = PacketFlags::from_bits(0xF000);
    assert!(
        invalid_bits.is_none(),
        "Expected None for unrecognised high bits if not truncating/retaining"
    );

    let valid_bits_some = PacketFlags::from_bits(PacketFlags::car_on_track().bits());
    assert_eq!(valid_bits_some, Some(PacketFlags::car_on_track()));
}

#[test]
fn test_flags_integration() {
    let mut flags = PacketFlags::empty();

    flags.insert(PacketFlags::car_on_track());
    assert!(flags.contains(PacketFlags::car_on_track()));

    flags.insert(PacketFlags::paused());
    assert!(flags.intersects(PacketFlags::paused() | PacketFlags::loading_or_processing()));

    let should_not_send =
        flags.intersects(PacketFlags::paused() | PacketFlags::loading_or_processing());
    assert!(should_not_send, "Should not send when paused");

    flags.remove(PacketFlags::paused());
    let should_send = !flags
        .intersects(PacketFlags::paused() | PacketFlags::loading_or_processing())
        && flags.contains(PacketFlags::car_on_track());
    assert!(should_send, "Should send when active and on track");
}

#[test]
fn every_state_has_its_own_bit() {
    let singles = [
        (PacketFlags::car_on_track(), CAR_ON_TRACK, 0),
        (PacketFlags::paused(), PAUSED, 1),
        (PacketFlags::loading_or_processing(), LOADING_OR_PROCESSING, 2),
        (PacketFlags::in_gear(), IN_GEAR, 3),
        (PacketFlags::has_turbo(), HAS_TURBO, 4),
        (PacketFlags::rev_limiter_blink_alert_active(), REV_LIMITER_BLINK_ALERT_ACTIVE, 5),
        (PacketFlags::hand_brake_active(), HAND_BRAKE_ACTIVE, 6),
        (PacketFlags::lights_active(), LIGHTS_ACTIVE, 7),
        (PacketFlags::high_beam_active(), HIGH_BEAM_ACTIVE, 8),
        (PacketFlags::low_beam_active(), LOW_BEAM_ACTIVE, 9),
        (PacketFlags::asm_active(), ASM_ACTIVE, 10),
        (PacketFlags::tcs_active(), TCS_ACTIVE, 11),
    ];
    for (flag, mask, position) in singles {
        assert_eq!(mask, 1u16 << position);
        assert_eq!(flag.bits(), mask);
    }
    assert_eq!(DEFINED_FLAG_BITS, 0x0FFF);
    assert_eq!(PacketFlags::empty().bits(), 0);
    assert!(PacketFlags::empty().is_empty());
    assert!(!PacketFlags::tcs_active().is_empty());
}

#[test]
fn from_bits_accepts_exactly_the_defined_patterns() {
    for bits in 0..=u16::MAX {
        let flags = PacketFlags::from_bits(bits);
        if bits & 0xF000 == 0 {
            assert_eq!(flags.map(|f| f.bits()), Some(bits));
        } else {
            assert!(flags.is_none(), "{:#06x} holds an undefined bit", bits);
        }
        assert_eq!(PacketFlags::from_bits_truncate(bits).bits(), bits & 0x0FFF);
    }
    assert!(PacketFlags::from_bits(0x1000).is_none());
    assert!(PacketFlags::from_bits(0x8001).is_none());
    assert_eq!(PacketFlags::from_bits(0x0FFF), Some(PacketFlags::all()));
}

#[test]
fn set_operations_follow_the_bits() {
    let a = PacketFlags::from_bits(0x0123).unwrap();
    let b = PacketFlags::from_bits(0x0806).unwrap();
    assert_eq!(a.union(b).bits(), 0x0927);
    assert_eq!((a | b).bits(), 0x0927);
    assert!(a.intersects(b));
    assert!(!a.contains(b));
    assert!(a.contains(PacketFlags::from_bits(0x0021).unwrap()));
    assert!(!a.intersects(PacketFlags::from_bits(0x0800).unwrap()));
    assert!(a.contains(PacketFlags::empty()));
    assert!(!a.intersects(PacketFlags::empty()));

    let mut c = a;
    c.insert(b);
    assert_eq!(c.bits(), 0x0927);
    c.remove(a);
    assert_eq!(c.bits(), 0x0804);
    c.toggle(PacketFlags::from_bits(0x0005).unwrap());
    assert_eq!(c.bits(), 0x0801);
}
