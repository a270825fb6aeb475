use flize::shared::Shared;
use flize::tag::TwoBitTag;

#[test]
fn two_bit_tag_round_trip_all_values() {
    let base: Shared<u64, TwoBitTag> = Shared::from_raw(0x1000);
    let tags = [TwoBitTag::Zero, TwoBitTag::One, TwoBitTag::Two, TwoBitTag::Three];
    for t in tags {
        let tagged = base.with_tag(t);
        assert_eq!(tagged.tag(), t);
        assert_eq!(tagged.as_ptr(), base.as_ptr());
    }
}

#[test]
fn with_tag_leaves_original_unchanged() {
    let base: Shared<u64, TwoBitTag> = Shared::from_raw(0x2a8);
    let tagged = base.with_tag(TwoBitTag::Three);
    assert_eq!(base.into_raw(), 0x2a8);
    assert_eq!(tagged.into_raw(), 0x2a8 | 3);
}

#[test]
fn retagging_replaces_the_tag() {
    let base: Shared<u64, TwoBitTag> = Shared::from_raw(0x1000);
    let tagged = base.with_tag(TwoBitTag::Three).with_tag(TwoBitTag::One);
    assert_eq!(tagged.tag(), TwoBitTag::One);
    assert_eq!(tagged.as_ptr(), 0x1000);
}

#[test]
fn null_is_null_under_every_tag() {
    let null: Shared<u64, TwoBitTag> = Shared::null();
    assert!(null.is_null());
    assert_eq!(null.as_ptr(), 0);
    let tags = [TwoBitTag::Zero, TwoBitTag::One, TwoBitTag::Two, TwoBitTag::Three];
    for t in tags {
        let tagged = null.with_tag(t);
        assert!(tagged.is_null());
        assert_eq!(tagged.as_ptr(), 0);
        assert_eq!(tagged.tag(), t);
    }
}

#[test]
fn into_raw_from_raw_is_the_identity() {
    let s: Shared<u64, TwoBitTag> = Shared::from_raw(0x4818).with_tag(TwoBitTag::Two);
    let raw: usize = s.into_raw();
    let back: Shared<u64, TwoBitTag> = Shared::from_raw(raw);
    assert_eq!(back, s);
    assert_eq!(back.into_raw(), raw);
    assert_eq!(back.as_ptr(), s.as_ptr());
    assert_eq!(back.tag(), s.tag());
}

#[test]
fn aligned_address_scenario() {
    // an 8-byte-aligned address, tag 0, then retagged to 3
    let addr: usize = 0x7f00_1238;
    let p: Shared<u64, TwoBitTag> = Shared::from_raw(addr).with_tag(TwoBitTag::Zero);
    assert_eq!(p.tag(), TwoBitTag::Zero);
    let q = p.with_tag(TwoBitTag::Three);
    assert_eq!(q.tag(), TwoBitTag::Three);
    assert_eq!(q.as_ptr(), addr);
}

#[test]
fn bool_tag_round_trip() {
    let base: Shared<u32, bool> = Shared::from_raw(0x90);
    assert!(base.with_tag(true).tag());
    assert!(!base.with_tag(false).tag());
    assert_eq!(base.with_tag(true).as_ptr(), 0x90);
    assert_eq!(base.with_tag(true).with_tag(false).into_raw(), 0x90);
}

#[test]
fn unit_tag_takes_no_bits() {
    let base: Shared<u8, ()> = Shared::from_raw(0x77);
    let tagged = base.with_tag(());
    assert_eq!(tagged.into_raw(), 0x77);
    assert_eq!(tagged.as_ptr(), 0x77);
}

#[test]
fn equality_is_raw_address_equality() {
    let a: Shared<u64, TwoBitTag> = Shared::from_raw(0x1000);
    let b: Shared<u64, TwoBitTag> = Shared::from_raw(0x1000);
    let c = a.with_tag(TwoBitTag::One);
    assert_eq!(a, b);
    assert!(a != c);
    let copied = a;
    assert_eq!(copied, a.clone());
}
