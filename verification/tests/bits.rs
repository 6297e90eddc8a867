use anystore::bits::Bits;
use anystore::bits::Permissions;


#[test]
fn test_combine_permissions() {
    let perms = Permissions::read() | Permissions::write();

    assert!(perms.contains(Permissions::read()));
    assert!(perms.contains(Permissions::write()));
    assert!(!perms.contains(Permissions::execute()));
}

#[test]
fn test_check_permission() {
    let perms = Permissions::read() | Permissions::execute();

    assert_eq!(perms & Permissions::read(), Permissions::read());
    assert_eq!(perms & Permissions::write(), Permissions::none());
}

#[test]
fn test_toggle_permission() {
    let perms = Permissions::read() | Permissions::write();

    let toggled = perms ^ Permissions::write();
    assert!(toggled.contains(Permissions::read()));
    assert!(!toggled.contains(Permissions::write()));

    let toggled_again = toggled ^ Permissions::write();
    assert_eq!(toggled_again, perms);
}

#[test]
fn test_not() {
    let perms = Permissions::read();
    let inverted = !perms;

    assert!(!inverted.contains(Permissions::read()));
    assert!(inverted.contains(Permissions::write()));
    assert!(inverted.contains(Permissions::execute()));
}

#[test]
fn test_shift_left() {
    let bits = Bits::new(0b0001);

    assert_eq!((bits << 1).value(), 0b0010);
    assert_eq!((bits << 2).value(), 0b0100);
    assert_eq!((bits << 3).value(), 0b1000);
}

#[test]
fn test_shift_right() {
    let bits = Bits::new(0b1000);

    assert_eq!((bits >> 1).value(), 0b0100);
    assert_eq!((bits >> 2).value(), 0b0010);
    assert_eq!((bits >> 3).value(), 0b0001);
}

#[test]
fn test_shift_create_flags() {

    let flag_0 = Bits::new(1) << 0;
    let flag_1 = Bits::new(1) << 1;
    let flag_2 = Bits::new(1) << 2;

    assert_eq!(flag_0.value(), 1);
    assert_eq!(flag_1.value(), 2);
    assert_eq!(flag_2.value(), 4);
}

#[test]
fn test_assign_ops() {
    let mut perms = Permissions::read();

    perms |= Permissions::write();
    assert!(perms.contains(Permissions::read()));
    assert!(perms.contains(Permissions::write()));

    perms ^= Permissions::read();
    assert!(!perms.contains(Permissions::read()));
    assert!(perms.contains(Permissions::write()));

    perms |= Permissions::execute();
    perms &= Permissions::write();
    assert_eq!(perms, Permissions::write());
}

#[test]
fn permissions_all_and_none() {
    assert!(Permissions::none().is_empty());
    assert!(!Permissions::all().is_empty());
    assert_eq!(!Permissions::none(), Permissions::all());
    assert_eq!(Permissions::read() | 6u8, Permissions::all());
    assert_eq!(Permissions::all() & 5u8, Permissions::read() | Permissions::execute());
    assert!(Permissions::all().contains(Permissions::none()));
}
