use home::homekit::{bridge_config, pin_digits, AccessoryCategory};
use home::ids::{next_id, IdCounter};
use home::telegram::{TBot, User};
use home::text::{contains_str, to_decimal};

#[test]
fn ids_count_up_from_one() {
    let mut c = IdCounter::new();
    assert_eq!(next_id(&mut c), 1);
    assert_eq!(next_id(&mut c), 2);
    assert_eq!(next_id(&mut c), 3);
}

#[test]
fn bot_always_accepts() {
    let bot = TBot::new().unwrap();
    assert!(bot.send_msg(User::Root, "hello".to_string()).is_ok());
}

#[test]
fn decimal_notation() {
    assert_eq!(to_decimal(0), "0");
    assert_eq!(to_decimal(9), "9");
    assert_eq!(to_decimal(10), "10");
    assert_eq!(to_decimal(8080), "8080");
    assert_eq!(to_decimal(u64::MAX), u64::MAX.to_string());
}

#[test]
fn substring_search() {
    assert!(contains_str("xxAL065KM0yy", "AL065KM0"));
    assert!(contains_str("AL065KM0", "AL065KM0"));
    assert!(contains_str("abc", ""));
    assert!(contains_str("", ""));
    assert!(!contains_str("AL065KM", "AL065KM0"));
    assert!(!contains_str("abcabd", "abe"));
    assert!(contains_str("ааб😭x", "б😭"));
}

#[test]
fn pin_digits_below_nine() {
    let pin = pin_digits([0, 8, 9, 17, 18, 200, 255, 100]);
    assert_eq!(pin, [0, 8, 0, 8, 0, 2, 3, 1]);
    assert!(pin.iter().all(|d| *d < 9));
}

#[test]
fn bridge_defaults() {
    let c = bridge_config([9, 10, 11, 12, 13, 14, 15, 16], [1, 2, 3, 4, 5, 6]);
    assert_eq!(c.name, "Home");
    assert_eq!(c.pin, [0, 1, 2, 3, 4, 5, 6, 7]);
    assert_eq!(c.device_id, [1, 2, 3, 4, 5, 6]);
    assert_eq!(c.category, AccessoryCategory::Bridge);
}

#[test]
fn fresh_counter_gives_one_to_n() {
    let mut c = IdCounter::new();
    let ids: Vec<u64> = (0..50).map(|_| next_id(&mut c)).collect();
    assert_eq!(ids, (1..=50).collect::<Vec<u64>>());
}
