use macro_kit::error::Site;
use macro_kit::panic_to_result::{
    extract_panic_content, handle_expression, last_stmt_as_result, panic_to_result,
    signature_output_as_result, BranchStmt, FnDef, FnStmt, MacroStmt, ReturnDef,
};

fn panic_stmt(tokens: &str) -> MacroStmt {
    MacroStmt {
        path: vec!["panic".to_string()],
        tokens: tokens.to_string(),
        text: format!("panic ! ({})", tokens),
        semi: true,
        at: Site::Branch { stmt: 0, branch: 0 },
    }
}

fn employee_fn(panic_tokens: &str, output: ReturnDef) -> FnDef {
    FnDef {
        attrs: String::new(),
        vis: String::new(),
        sig_head: "fn create_employee (name : & str , age : u8)".to_string(),
        output,
        where_clause: String::new(),
        stmts: vec![
            FnStmt::If {
                cond: "age > 35".to_string(),
                then_branch: vec![BranchStmt::Macro(panic_stmt(panic_tokens))],
                rest: String::new(),
                semi: false,
            },
            FnStmt::Expr { text: "Employee { name : name . into () , age , }".to_string(), semi: false },
        ],
    }
}

#[test]
fn panics_become_early_errors() {
    let f = employee_fn(
        "\"Employee age cannot be greater than 35\"",
        ReturnDef::Type("Employee".to_string()),
    );
    let out = panic_to_result(&f).unwrap();
    assert_eq!(
        out,
        "  fn create_employee (name : & str , age : u8) -> Result<Employee, String>  { \
         if age > 35 { return Err(\"Employee age cannot be greater than 35\".to_string()); }  \
         Ok(Employee { name : name . into () , age , }) }"
    );
    assert!(syn::parse_str::<syn::ItemFn>(&out).is_ok());
}

#[test]
fn unit_functions_return_unit_results() {
    let mut f = employee_fn("\"x\"", ReturnDef::Default);
    f.stmts[1] = FnStmt::Expr { text: "()".to_string(), semi: false };
    let out = panic_to_result(&f).unwrap();
    assert!(out.contains("-> Result<(), String>"));
    assert!(out.ends_with("Ok(()) }"));
}

#[test]
fn empty_panic_is_reported() {
    let f = employee_fn("", ReturnDef::Type("Employee".to_string()));
    let err = panic_to_result(&f).unwrap_err();
    assert_eq!(err.sites, vec![Site::Branch { stmt: 0, branch: 0 }]);
    assert_eq!(
        err.to_compile_error(),
        "::core::compile_error! { \"please make sure every panic in your function has a message, check: panic ! () ;\" } "
    );
    let stmt_err = handle_expression(&f.stmts[0]).unwrap_err();
    assert_eq!(stmt_err.sites, vec![Site::Branch { stmt: 0, branch: 0 }]);
}

#[test]
fn result_signature_is_reported() {
    let f = employee_fn("\"msg\"", ReturnDef::Type("Result < Employee , String >".to_string()));
    let err = signature_output_as_result(&f).unwrap_err();
    assert_eq!(
        err.messages,
        vec!["this macro can only be applied to a function that does not return a Result.\nSignature: Result < Employee , String >".to_string()]
    );
    assert_eq!(err.sites, vec![Site::Signature]);
    let both = employee_fn("", ReturnDef::Type("Result < Employee , String >".to_string()));
    let err = panic_to_result(&both).unwrap_err();
    assert_eq!(err.sites, vec![Site::Branch { stmt: 0, branch: 0 }, Site::Signature]);
    let out = err.to_compile_error();
    assert_eq!(out.matches("compile_error!").count(), 2);
    assert!(out.find("please make sure").unwrap() < out.find("this macro can only").unwrap());
    let mut no_value = employee_fn("", ReturnDef::Type("Result < Employee , String >".to_string()));
    no_value.stmts.pop();
    assert_eq!(panic_to_result(&no_value).unwrap_err().messages.len(), 2);
}

#[test]
fn other_macros_and_statements_are_kept() {
    let log = MacroStmt {
        path: vec!["println".to_string()],
        tokens: "\"hi\"".to_string(),
        text: "println ! (\"hi\")".to_string(),
        semi: true,
        at: Site::Branch { stmt: 0, branch: 0 },
    };
    assert!(extract_panic_content(&log).is_none());
    assert_eq!(extract_panic_content(&panic_stmt("\"m\"")).unwrap(), "\"m\"");
    let stmt = FnStmt::If {
        cond: "x".to_string(),
        then_branch: vec![BranchStmt::Macro(log), BranchStmt::Other("let y = 1 ;".to_string())],
        rest: "else { }".to_string(),
        semi: false,
    };
    assert_eq!(
        handle_expression(&stmt).unwrap(),
        "if x { println ! (\"hi\"); let y = 1 ; } else { }"
    );
    let outer_panic = FnStmt::Macro(panic_stmt(""));
    assert_eq!(handle_expression(&outer_panic).unwrap(), "panic ! ();");
    assert_eq!(last_stmt_as_result("v".to_string()), "Ok(v)");
}
