use coca::option_group::{OptionGroup16, OptionGroup8};

#[test]
fn empty_group_has_no_values() {
    let group: OptionGroup8<(u32, i16)> = OptionGroup8::empty();
    assert!(group.is_empty());
    assert!(!group.is_some(0));
    assert!(group.is_none(0));
    assert!(group.is_none(1));
    assert!(group.is_none(7));
}

#[test]
fn default_group_is_empty() {
    let group: OptionGroup8<(u8, u8)> = Default::default();
    assert!(group.is_empty());
    let group16: OptionGroup16<(u8, u8, u8, u8, u8, u8, u8, u8, u8)> = Default::default();
    assert!(group16.is_empty());
}

#[test]
fn replace_and_get_pair_fields() {
    let mut group: OptionGroup8<(u32, i16)> = OptionGroup8::empty();
    assert_eq!(group.replace_0(0xC0FFE), None);
    assert_eq!(group.replace_1(-1337), None);
    assert!(!group.is_empty());
    assert!(group.is_some(0));
    assert!(group.is_some(1));
    assert_eq!(group.get_0(), Some(&0xC0FFE));
    assert_eq!(group.get_1(), Some(&-1337));
    assert!(group.is_none(2));
    assert!(group.is_none(7));
}

#[test]
fn replacing_again_returns_previous_value() {
    let mut group: OptionGroup8<(u32, i16)> = OptionGroup8::empty();
    assert_eq!(group.replace_0(1), None);
    assert_eq!(group.replace_0(2), Some(1));
    assert_eq!(group.get_0(), Some(&2));
}

#[test]
fn mutating_through_get_mut() {
    let mut group: OptionGroup8<(u32, i16)> = OptionGroup8::empty();
    assert!(group.get_mut_1().is_none());
    group.replace_1(-1337);
    if let Some(snd) = group.get_mut_1() {
        *snd = 1234;
    }
    assert_eq!(group.get_1(), Some(&1234));
}

#[test]
fn take_clears_the_slot() {
    let mut group: OptionGroup8<(u32, i16)> = OptionGroup8::empty();
    group.replace_0(10);
    group.replace_1(20);
    assert_eq!(group.take_0(), Some(10));
    assert!(group.is_none(0));
    assert_eq!(group.take_0(), None);
    assert!(group.is_some(1));
    assert_eq!(group.take_1(), Some(20));
    assert!(group.is_empty());
}

#[test]
fn group16_pair_round_trip() {
    let mut group: OptionGroup16<(String, u8)> = OptionGroup16::empty();
    assert!(group.is_empty());
    assert_eq!(group.replace_0(String::from("hello")), None);
    assert_eq!(group.replace_1(9), None);
    assert_eq!(group.get_0(), Some(&String::from("hello")));
    assert_eq!(group.get_1(), Some(&9));
    assert!(group.is_none(15));
    if let Some(text) = group.get_mut_0() {
        text.push_str(", world");
    }
    assert_eq!(group.take_0(), Some(String::from("hello, world")));
    assert_eq!(group.take_1(), Some(9));
    assert!(group.is_empty());
}

#[test]
fn group16_high_flags_stay_clear() {
    let mut group: OptionGroup16<(u8, u8)> = OptionGroup16::empty();
    group.replace_0(1);
    for n in 2..16 {
        assert!(group.is_none(n));
    }
    assert!(group.is_some(0));
}
