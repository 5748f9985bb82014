use benchmark_writer::digits::underscore;

fn grouped(text: &str) -> String {
    underscore(&text.chars().collect()).into_iter().collect()
}

#[test]
fn digits_stand_in_groups_of_three() {
    assert_eq!(grouped(""), "");
    assert_eq!(grouped("7"), "7");
    assert_eq!(grouped("12"), "12");
    assert_eq!(grouped("123"), "123");
    assert_eq!(grouped("1000"), "1_000");
    assert_eq!(grouped("12345"), "12_345");
    assert_eq!(grouped("123456"), "123_456");
    assert_eq!(grouped("1234567"), "1_234_567");
    assert_eq!(
        grouped("340282366920938463463374607431768211455"),
        "340_282_366_920_938_463_463_374_607_431_768_211_455"
    );
}
