use evscript::events::narrow16_exec;

#[test]
fn narrowing_keeps_the_low_bits() {
    assert_eq!(narrow16_exec(0x0001_2345), 0x2345);
    assert_eq!(narrow16_exec(30), 30);
    assert_eq!(narrow16_exec(0xFFFF_FFFF), 0xFFFF);
    assert_eq!(narrow16_exec(0x0001_0000), 0);
}
