use pallet_contracts::call_flags::{CallFlags, ALL_BITS};

#[test]
fn named_flags_have_their_bits() {
    assert_eq!(CallFlags::forward_input().bits(), 0b0001);
    assert_eq!(CallFlags::clone_input().bits(), 0b0010);
    assert_eq!(CallFlags::tail_call().bits(), 0b0100);
    assert_eq!(CallFlags::allow_reentry().bits(), 0b1000);
    assert_eq!(CallFlags::all().bits(), ALL_BITS);
    assert_eq!(CallFlags::empty().bits(), 0);
}

#[test]
fn from_bits_refuses_unknown_bits() {
    assert_eq!(CallFlags::from_bits(0b0101).map(|f| f.bits()), Some(0b0101));
    assert_eq!(CallFlags::from_bits(0b1_0000), None);
    assert_eq!(CallFlags::from_bits(0xffff_ffff), None);
    assert_eq!(CallFlags::from_bits_truncate(0xffff_fff3).bits(), 0b0011);
    assert_eq!(CallFlags::from_bits_unchecked(0x30).bits(), 0x30);
}

#[test]
fn set_operations() {
    let a = CallFlags::from_bits_unchecked(0b0011);
    let b = CallFlags::from_bits_unchecked(0b0110);
    assert_eq!(a.union(b).bits(), 0b0111);
    assert_eq!(a.intersection(b).bits(), 0b0010);
    assert_eq!(a.difference(b).bits(), 0b0001);
    assert_eq!(a.symmetric_difference(b).bits(), 0b0101);
    assert_eq!(a.complement().bits(), 0b1100);
    assert!(a.intersects(b));
    assert!(!a.intersects(CallFlags::allow_reentry()));
    assert!(a.contains(CallFlags::clone_input()));
    assert!(!a.contains(b));
    assert!(CallFlags::empty().is_empty());
    assert!(!a.is_empty());
    assert!(CallFlags::all().is_all());
    assert!(!a.is_all());
    assert!(CallFlags::from_bits_unchecked(0xff).is_all());
}

#[test]
fn mutating_operations() {
    let mut f = CallFlags::empty();
    f.insert(CallFlags::tail_call());
    assert_eq!(f.bits(), 0b0100);
    f.toggle(CallFlags::from_bits_unchecked(0b0110));
    assert_eq!(f.bits(), 0b0010);
    f.set(CallFlags::forward_input(), true);
    assert_eq!(f.bits(), 0b0011);
    f.set(CallFlags::clone_input(), false);
    assert_eq!(f.bits(), 0b0001);
    f.remove(CallFlags::forward_input());
    assert!(f.is_empty());
}

#[test]
fn toggling_twice_restores_the_flags() {
    let original = CallFlags::from_bits_unchecked(0b1010);
    let mut f = original;
    f.toggle(CallFlags::from_bits_unchecked(0b0111));
    assert_ne!(f, original);
    f.toggle(CallFlags::from_bits_unchecked(0b0111));
    assert_eq!(f, original);
}

#[test]
fn complement_twice_gives_known_flags_back() {
    let f = CallFlags::from_bits_unchecked(0b1001);
    assert_eq!(f.complement().complement(), f);
}

#[test]
fn debug_text_names_the_flags() {
    assert_eq!(CallFlags::empty().to_debug_string(), "(empty)");
    assert_eq!(CallFlags::forward_input().to_debug_string(), "FORWARD_INPUT");
    assert_eq!(
        CallFlags::all().to_debug_string(),
        "FORWARD_INPUT | CLONE_INPUT | TAIL_CALL | ALLOW_REENTRY"
    );
    assert_eq!(
        CallFlags::from_bits_unchecked(0b1010).to_debug_string(),
        "CLONE_INPUT | ALLOW_REENTRY"
    );
}

#[test]
fn debug_text_shows_unknown_bits_in_hex() {
    assert_eq!(CallFlags::from_bits_unchecked(0x10).to_debug_string(), "0x10");
    assert_eq!(
        CallFlags::from_bits_unchecked(0xabc4).to_debug_string(),
        "TAIL_CALL | 0xabc0"
    );
    assert_eq!(
        CallFlags::from_bits_unchecked(0xffff_ffff).to_debug_string(),
        "FORWARD_INPUT | CLONE_INPUT | TAIL_CALL | ALLOW_REENTRY | 0xfffffff0"
    );
}

#[test]
fn operators_match_the_set_operations() {
    let a = CallFlags::from_bits_unchecked(0b0011);
    let b = CallFlags::from_bits_unchecked(0b0110);
    assert_eq!((a | b).bits(), 0b0111);
    assert_eq!((a & b).bits(), 0b0010);
    assert_eq!((a ^ b).bits(), 0b0101);
    assert_eq!((a - b).bits(), 0b0001);
    assert_eq!((!a).bits(), 0b1100);
    assert_eq!(!!a, a);
}
