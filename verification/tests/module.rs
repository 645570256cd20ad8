use optimizer_core::arith::add_numbers;
use optimizer_core::boundary::invoke_add;
use optimizer_core::boundary::HostValue;
use optimizer_core::exports::initialize_module;
use optimizer_core::exports::ExportTable;
use optimizer_core::ModuleError;

#[test]
fn adds_small_numbers() {
    assert_eq!(add_numbers(2, 3), 5);
}

#[test]
fn adds_to_zero() {
    assert_eq!(add_numbers(-10, 10), 0);
}

#[test]
fn adds_zeros() {
    assert_eq!(add_numbers(0, 0), 0);
}

#[test]
fn overflow_wraps() {
    assert_eq!(add_numbers(i64::MAX, 1), i64::MIN);
}

#[test]
fn underflow_wraps() {
    assert_eq!(add_numbers(i64::MIN, -1), i64::MAX);
}

#[test]
fn addition_is_commutative() {
    assert_eq!(add_numbers(7, 9), add_numbers(9, 7));
    assert_eq!(add_numbers(i64::MAX, 2), add_numbers(2, i64::MAX));
    assert_eq!(add_numbers(-1, i64::MIN), add_numbers(i64::MIN, -1));
}

#[test]
fn zero_is_identity() {
    assert_eq!(add_numbers(42, 0), 42);
    assert_eq!(add_numbers(0, -7), -7);
    assert_eq!(add_numbers(i64::MAX, 0), i64::MAX);
    assert_eq!(add_numbers(i64::MIN, 0), i64::MIN);
}

#[test]
fn invocation_adds_converted_arguments() {
    assert_eq!(invoke_add(HostValue::Int(2), HostValue::Int(3)), Ok(5));
    assert_eq!(invoke_add(HostValue::Int(-10), HostValue::Int(10)), Ok(0));
    assert_eq!(
        invoke_add(HostValue::Int(i64::MAX), HostValue::Int(1)),
        Ok(i64::MIN)
    );
}

#[test]
fn unconvertible_argument_is_rejected() {
    assert_eq!(
        invoke_add(HostValue::Unconvertible, HostValue::Int(3)),
        Err(ModuleError::ArgumentConversion)
    );
    assert_eq!(
        invoke_add(HostValue::Int(3), HostValue::Unconvertible),
        Err(ModuleError::ArgumentConversion)
    );
    assert_eq!(
        invoke_add(HostValue::Unconvertible, HostValue::Unconvertible),
        Err(ModuleError::ArgumentConversion)
    );
}

#[test]
fn module_load_registers_the_callable() {
    let mut table = ExportTable::new();
    assert_eq!(table.len(), 0);
    assert_eq!(initialize_module(&mut table), Ok(()));
    assert_eq!(table.len(), 1);
    assert!(table.contains(&String::from("add_numbers")));
    assert!(!table.contains(&String::from("subtract_numbers")));
}

#[test]
fn duplicate_registration_fails_and_changes_nothing() {
    let mut table = ExportTable::new();
    assert_eq!(initialize_module(&mut table), Ok(()));
    assert_eq!(initialize_module(&mut table), Err(ModuleError::Registration));
    assert_eq!(table.len(), 1);
    assert!(table.contains(&String::from("add_numbers")));
}

#[test]
fn registration_rejects_only_taken_names() {
    let mut table = ExportTable::new();
    assert_eq!(table.register(String::from("alpha")), Ok(()));
    assert_eq!(table.register(String::from("beta")), Ok(()));
    assert_eq!(
        table.register(String::from("alpha")),
        Err(ModuleError::Registration)
    );
    assert_eq!(table.len(), 2);
    assert!(table.contains(&String::from("alpha")));
    assert!(table.contains(&String::from("beta")));
    assert!(!table.contains(&String::from("gamma")));
}
