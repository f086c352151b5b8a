use day_toolkits::text::{chars_of, text_of};

#[test]
fn characters_round_trip() {
    let v = chars_of("héllo");
    assert_eq!(v.len(), 5);
    assert_eq!(text_of(&v, 1, 3), "él");
}
