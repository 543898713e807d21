use stackvm::errors::Fault;
use stackvm::register::Register;

#[test]
fn set() {
    let mut reg = Register::new();
    reg.set(0, 100).unwrap();
}

#[test]
#[should_panic]
fn set_invalid() {
    let mut reg = Register::new();
    reg.set(1990, 1).unwrap();
}

#[test]
fn get() {
    let reg = Register::new();
    reg.get(1).unwrap();
}

#[test]
#[should_panic]
fn get_invalid() {
    let reg = Register::new();
    reg.get(1990).unwrap();
}

#[test]
fn every_register_starts_at_zero() {
    let reg = Register::new();
    for id in [0u32, 1, 2, 3, 4, 5, 6, 7, 100] {
        assert_eq!(reg.get(id).unwrap(), 0);
    }
}

#[test]
fn set_changes_only_the_named_register() {
    for id in [0u32, 1, 2, 3, 4, 5, 6, 7, 100] {
        let mut reg = Register::new();
        reg.set(id, 77).unwrap();
        for other in [0u32, 1, 2, 3, 4, 5, 6, 7, 100] {
            let expected = if other == id { 77 } else { 0 };
            assert_eq!(reg.get(other).unwrap(), expected);
        }
    }
}

#[test]
fn ids_outside_the_table_are_invalid() {
    let mut reg = Register::new();
    for id in [8u32, 9, 99, 101, 0xffff_ffff] {
        assert_eq!(reg.get(id).unwrap_err().kind(), Fault::InvalidRegister);
        assert_eq!(reg.set(id, 5).unwrap_err().kind(), Fault::InvalidRegister);
    }
    assert_eq!(reg, Register::new());
}
