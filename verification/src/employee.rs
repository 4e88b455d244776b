//! A function written with `panic!` for invalid input, in the form the
//! panic-to-result attribute gives it: the panic is an `Err`.

use vstd::prelude::*;

verus! {

/// An employee.
#[derive(Debug)]
pub struct Employee {
    pub name: String,
    pub age: u8,
}

/// The message an invalid age is refused with.
pub open spec fn too_old_message() -> Seq<char> {
    "Employee age cannot be greater than 35"@
}

/// Creates an employee; an age above 35 is refused.
pub fn create_employee(name: &str, age: u8) -> (res: Result<Employee, String>)
    ensures
        age > 35 <==> res is Err,
        res matches Ok(e) ==> e.name@ == name@ && e.age == age,
        res matches Err(m) ==> m@ == too_old_message(),
        res matches Err(m) ==> m@ == "Employee age cannot be greater than 35"@,
{
    if age > 35 {
        return Err(String::from_str("Employee age cannot be greater than 35"));
    }
    Ok(Employee { name: String::from_str(name), age })
}

} // verus!
