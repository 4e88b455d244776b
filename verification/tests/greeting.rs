use macro_kit::greeting::base_greeting_fn;

#[test]
fn greeting_puts_greeting_before_name() {
    assert_eq!(base_greeting_fn("Sam", "Hello"), "Hello Sam!");
    assert_eq!(base_greeting_fn("Sam", "Hola"), "Hola Sam!");
    assert_eq!(base_greeting_fn("", ""), " !");
}
