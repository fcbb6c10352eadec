use producer::handle::{decode, encode, MAX_GENERATION, UNSET_HANDLE};
use producer::slots::SlotTable;

#[test]
fn encode_packs_generation_above_index() {
    assert_eq!(encode(3, 1), 4_294_967_299);
    assert_eq!(encode(0, 2), 8_589_934_592);
    assert_eq!(encode(u32::MAX, MAX_GENERATION), i64::MAX);
}

#[test]
fn decode_inverts_encode() {
    assert_eq!(decode(encode(3, 1)), Some((3, 1)));
    assert_eq!(decode(encode(u32::MAX, MAX_GENERATION)), Some((u32::MAX, MAX_GENERATION)));
    assert_eq!(decode(encode(17, 40_000)), Some((17, 40_000)));
}

#[test]
fn decode_rejects_sentinel_and_small_values() {
    assert_eq!(decode(UNSET_HANDLE), None);
    assert_eq!(decode(-1), None);
    assert_eq!(decode(i64::MIN), None);
    assert_eq!(decode(4_294_967_295), None);
}

#[test]
fn inserted_value_is_found_by_its_handle() {
    let mut slots: SlotTable<String> = SlotTable::new();
    let a = slots.insert(String::from("a")).ok().unwrap();
    let b = slots.insert(String::from("b")).ok().unwrap();
    assert_ne!(a, b);
    assert!(a > 0 && b > 0);
    assert_eq!(slots.get(a), Some(&String::from("a")));
    assert_eq!(slots.get(b), Some(&String::from("b")));
    assert_eq!(slots.get(UNSET_HANDLE), None);
    assert_eq!(slots.get(a + b), None);
}

#[test]
fn removed_handle_is_dead() {
    let mut slots: SlotTable<u32> = SlotTable::new();
    let a = slots.insert(10).ok().unwrap();
    assert_eq!(slots.remove(a), Some(10));
    assert_eq!(slots.get(a), None);
    assert_eq!(slots.remove(a), None);
}

#[test]
fn reused_slot_gets_a_new_generation() {
    let mut slots: SlotTable<u32> = SlotTable::new();
    let a = slots.insert(1).ok().unwrap();
    assert_eq!(slots.remove(a), Some(1));
    let b = slots.insert(2).ok().unwrap();
    assert_ne!(a, b);
    assert_eq!(decode(a), Some((0, 1)));
    assert_eq!(decode(b), Some((0, 2)));
    assert_eq!(slots.get(a), None);
    assert_eq!(slots.get(b), Some(&2));
}

#[test]
fn removing_one_entry_keeps_the_others() {
    let mut slots: SlotTable<u32> = SlotTable::new();
    let a = slots.insert(1).ok().unwrap();
    let b = slots.insert(2).ok().unwrap();
    let c = slots.insert(3).ok().unwrap();
    assert_eq!(slots.remove(b), Some(2));
    assert_eq!(slots.get(a), Some(&1));
    assert_eq!(slots.get(c), Some(&3));
    let d = slots.insert(4).ok().unwrap();
    assert_eq!(decode(d), Some((1, 2)));
}
