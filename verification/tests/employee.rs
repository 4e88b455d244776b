use macro_kit::employee::create_employee;

#[test]
fn happy_path() {
    let employee = create_employee("Alice", 25).unwrap();
    assert_eq!(employee.name, "Alice");
    assert_eq!(employee.age, 25);
}

#[test]
fn should_panic_on_invalid_age() {
    let employee = create_employee("Bob", 36);
    assert_eq!(
        employee.expect_err("this should be an err"),
        "Employee age cannot be greater than 35"
    );
}

#[test]
fn employee_age_limit_is_inclusive() {
    assert!(create_employee("Carol", 35).is_ok());
    assert!(create_employee("Dave", 0).is_ok());
    assert!(create_employee("Eve", 255).is_err());
}
