use camera_pipeline::text::push_decimal;

#[test]
fn decimal_rendering() {
    for n in [0u32, 7, 10, 99, 100, 5600, 65535, u32::MAX] {
        let mut s = String::from("x=");
        push_decimal(&mut s, n);
        assert_eq!(s, format!("x={n}"));
    }
}
