use buzzcurse::botton::{Botton, Button, KEY_COUNT};
use buzzcurse::dispatch::combine;
use buzzcurse::held::{HeldSet, HELD_WEIGHT};
use buzzcurse::power::{PowerAccumulator, POWER_ONE};
use std::collections::HashSet;

#[test]
fn held_weight_is_a_half() {
    assert_eq!(HELD_WEIGHT as f64 / POWER_ONE as f64, 0.5);
}

#[test]
fn new_held_set_is_empty() {
    let held = HeldSet::new();
    assert_eq!(held.count(), 0);
    assert_eq!(held.bonus(), 0);
    assert!(!held.is_held(Botton(Button::Left)));
}

#[test]
fn press_and_release_toggle_membership() {
    let mut held = HeldSet::new();
    held.on_press(Botton(Button::Right));
    assert!(held.is_held(Botton(Button::Right)));
    assert!(!held.is_held(Botton(Button::Left)));
    assert_eq!(held.count(), 1);
    held.on_release(Botton(Button::Right));
    assert!(!held.is_held(Botton(Button::Right)));
    assert_eq!(held.count(), 0);
}

#[test]
fn duplicate_press_and_release_change_nothing() {
    let mut held = HeldSet::new();
    held.on_release(Botton(Button::Middle));
    assert_eq!(held.count(), 0);
    held.on_press(Botton(Button::Middle));
    held.on_press(Botton(Button::Middle));
    held.on_press(Botton(Button::Middle));
    assert_eq!(held.count(), 1);
    assert_eq!(held.bonus(), 50_000);
    held.on_release(Botton(Button::Middle));
    held.on_release(Botton(Button::Middle));
    assert_eq!(held.count(), 0);
    assert_eq!(held.bonus(), 0);
}

#[test]
fn bonus_is_half_a_unit_for_each_held_button() {
    let mut held = HeldSet::new();
    let buttons: [Botton; 5] = [
        Botton(Button::Left),
        Botton(Button::Right),
        Botton(Button::Middle),
        Botton(Button::Unknown(0)),
        Botton(Button::Unknown(255)),
    ];
    let mut n: u64 = 0;
    for b in buttons {
        held.on_press(b);
        n += 1;
        assert_eq!(held.count() as u64, n);
        assert_eq!(held.bonus(), n * 50_000);
    }
    for b in buttons {
        held.on_release(b);
        n -= 1;
        assert_eq!(held.bonus(), n * 50_000);
    }
}

#[test]
fn unknown_buttons_differ_by_code() {
    let mut held = HeldSet::new();
    held.on_press(Botton(Button::Unknown(4)));
    held.on_press(Botton(Button::Unknown(5)));
    held.on_press(Botton(Button::Unknown(4)));
    assert_eq!(held.count(), 2);
    assert!(held.is_held(Botton(Button::Unknown(4))));
    assert!(held.is_held(Botton(Button::Unknown(5))));
    assert!(!held.is_held(Botton(Button::Unknown(6))));
    held.on_release(Botton(Button::Unknown(5)));
    assert!(held.is_held(Botton(Button::Unknown(4))));
    assert!(!held.is_held(Botton(Button::Unknown(5))));
}

#[test]
fn unknown_code_zero_is_not_a_named_button() {
    let mut held = HeldSet::new();
    held.on_press(Botton(Button::Unknown(0)));
    assert!(!held.is_held(Botton(Button::Left)));
    assert!(!held.is_held(Botton(Button::Right)));
    assert!(!held.is_held(Botton(Button::Middle)));
    held.on_press(Botton(Button::Left));
    assert_eq!(held.count(), 2);
}

#[test]
fn every_button_can_be_held_at_once() {
    let mut held = HeldSet::new();
    held.on_press(Botton(Button::Left));
    held.on_press(Botton(Button::Right));
    held.on_press(Botton(Button::Middle));
    for code in 0..=255u8 {
        held.on_press(Botton(Button::Unknown(code)));
    }
    assert_eq!(held.count(), KEY_COUNT as usize);
    assert_eq!(held.bonus(), 259 * 50_000);
}

#[test]
fn keys_are_distinct_and_below_the_count() {
    let mut keys: HashSet<u16> = HashSet::new();
    assert_eq!(Botton(Button::Left).key(), 0);
    assert_eq!(Botton(Button::Right).key(), 1);
    assert_eq!(Botton(Button::Middle).key(), 2);
    assert_eq!(Botton(Button::Unknown(0)).key(), 3);
    assert_eq!(Botton(Button::Unknown(255)).key(), 258);
    keys.insert(Botton(Button::Left).key());
    keys.insert(Botton(Button::Right).key());
    keys.insert(Botton(Button::Middle).key());
    for code in 0..=255u8 {
        let k: u16 = Botton(Button::Unknown(code)).key();
        assert!(k < KEY_COUNT);
        assert!(keys.insert(k));
    }
    assert_eq!(keys.len(), 259);
}

#[test]
fn equality_and_hash_take_the_code_into_account() {
    assert_eq!(Botton(Button::Unknown(9)), Botton(Button::Unknown(9)));
    assert_ne!(Botton(Button::Unknown(9)), Botton(Button::Unknown(10)));
    assert_ne!(Botton(Button::Left), Botton(Button::Right));
    let mut set: HashSet<Botton> = HashSet::new();
    set.insert(Botton(Button::Unknown(9)));
    set.insert(Botton(Button::Unknown(9)));
    set.insert(Botton(Button::Unknown(10)));
    set.insert(Botton(Button::Left));
    set.insert(Botton(Button::Left));
    assert_eq!(set.len(), 3);
}

#[test]
fn three_presses_of_two_buttons_give_full_speed() {
    let mut acc = PowerAccumulator::new();
    let mut held = HeldSet::new();
    let a = Botton(Button::Left);
    let b = Botton(Button::Right);
    held.on_press(a);
    held.on_press(b);
    held.on_press(a);
    assert_eq!(held.count(), 2);
    assert_eq!(held.bonus(), 100_000);
    assert_eq!(held.bonus() as f64 / POWER_ONE as f64, 1.0);
    let out = combine(acc.drain_decayed(), held.bonus());
    assert_eq!(out.power, 100_000);
    assert_eq!(out.speed, 100_000);
    assert_eq!(out.speed as f64 / POWER_ONE as f64, 1.0);
}
