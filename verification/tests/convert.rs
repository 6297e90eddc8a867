use anystore::convert::Email;
use anystore::convert::OrderId;
use anystore::convert::Percentage;
use anystore::convert::PercentageError;
use anystore::convert::Port;
use anystore::convert::PortError;
use anystore::convert::UserAccount;
use anystore::convert::UserId;






#[test]
fn test_newtype_from_primitive() {

    let user_id = UserId::from(42);
    let order_id = OrderId::from(42);

    assert_eq!(user_id.0, 42);
    assert_eq!(order_id.0, 42);

}

#[test]
fn test_newtype_into_primitive() {
    let user_id = UserId(100);

    let raw: u64 = user_id.into();

    assert_eq!(raw, 100);
}

#[test]
fn test_from_str_and_string() {

    let email1 = Email::from("alice@example.com");

    let email2 = Email::from(String::from("bob@example.com"));

    assert_eq!(email1.0, "alice@example.com");
    assert_eq!(email2.0, "bob@example.com");
}

#[test]
fn test_flexible_api_with_into() {

    let user1 = UserAccount::new("Alice", "alice@example.com");

    let user2 = UserAccount::new(String::from("Bob"), String::from("bob@example.com"));

    let user3 = UserAccount::new("Charlie", Email::from("charlie@example.com"));

    assert_eq!(user1.email.0, "alice@example.com");
    assert_eq!(user2.email.0, "bob@example.com");
    assert_eq!(user3.email.0, "charlie@example.com");
}

#[test]
fn test_reflexive_from() {

    let email = Email::from("test@example.com");

    let same_email = Email::from(email.clone());

    assert_eq!(email, same_email);

}


#[test]
fn test_try_from_valid_i32() {
    let first = Percentage::try_from(0).unwrap();
    let second = Percentage::try_from(50).unwrap();
    let third = Percentage::try_from(100).unwrap();

    assert_eq!(first.value(), 0);
    assert_eq!(second.value(), 50);
    assert_eq!(third.value(), 100);
}

#[test]
fn test_try_from_invalid_negative() {
    let p = Percentage::try_from(-1_i32);
    assert!(p.is_err());

    let e = p.unwrap_err();
    assert_eq!(e.invalid_value, -1);
    assert!(e.message.contains("negative"));
}

#[test]
fn test_try_from_invalid_too_large() {
    let p = Percentage::try_from(101);
    assert!(p.is_err());

    let e: PercentageError = p.unwrap_err();
    assert_eq!(e.invalid_value, 101);
    assert!(e.message.contains("exceed"));
}

#[test]
fn test_try_from_u8() {
    let p = Percentage::try_from(75u8).unwrap();
    assert_eq!(p.value(), 75);

    let p = Percentage::try_from(150u8);
    assert!(p.is_err());
}

#[test]
fn test_try_into_syntax() {
    let n = 42;
    let p: Result<Percentage, _> = n.try_into();

    assert!(p.is_ok());
    assert_eq!(p.unwrap().value(), 42);
}

#[test]
fn test_try_into_with_question_mark() {
    fn calc_discount(n: i32) -> Result<Percentage, PercentageError> {
        let p: Percentage = n.try_into()?;
        Ok(p)
    }

    assert!(calc_discount(24).is_ok());
    assert!(calc_discount(111000).is_err());
}

#[test]
fn test_port_valid() {
    let p = Port::try_from(80_i32).unwrap();
    assert!(p.is_privileged());
    assert_eq!(p.value(), 80);

    let p = Port::try_from(8080_u16).unwrap();
    assert!(!p.is_privileged());
    assert_eq!(p.value(), 8080);
}

#[test]
fn test_port_invalid() {

    assert!(Port::try_from(0_u16).is_err());

    assert!(Port::try_from(-1_i32).is_err());

    assert!(Port::try_from(70000_i32).is_err());
}

#[test]
fn test_try_into_flexible_function() {
    fn apply_discount<T>(value: T) -> Result<Percentage, PercentageError>
    where
        T: TryInto<Percentage, Error = PercentageError>,
    {
        value.try_into()
    }

    assert_eq!(apply_discount(20).unwrap().value(), 20);
    assert_eq!(apply_discount(50).unwrap().value(), 50);
    assert!(apply_discount(2000).is_err());
}

#[test]
fn test_port_try_into() {
    let port: Result<Port, _> = 8080.try_into();
    assert!(port.is_ok());
    assert_eq!(port.unwrap().value(), 8080);

    let port: Result<Port, _> = (-120).try_into();
    assert!(port.is_err());
}

#[test]
fn test_chained_try_into() {
    fn create_server_config(port: i32, discount: i32) -> Result<(Port, Percentage), String> {
        let port: Port = port.try_into().map_err(|e: PortError| e.0)?;
        let percentage: Percentage = discount
            .try_into()
            .map_err(|e: PercentageError| e.message)?;
        Ok((port, percentage))
    }

    let conf = create_server_config(8080, 15);
    assert!(conf.is_ok());

    let (port, discount) = conf.unwrap();
    assert_eq!(port.value(), 8080);
    assert_eq!(discount.value(), 15);

    assert!(create_server_config(0, 15).is_err());

    assert!(create_server_config(8080, 150).is_err());
}

#[test]
fn percentage_error_messages_are_exact() {
    let e = Percentage::try_from(-7i32).unwrap_err();
    assert_eq!(e.message, "Percentage cannot be negative: -7");
    assert_eq!(e.to_string(), "Percentage cannot be negative: -7");
    let e = Percentage::try_from(101i32).unwrap_err();
    assert_eq!(e.message, "Percentage cannot exceed 100: 101");
    let e = Percentage::try_from(255u8).unwrap_err();
    assert_eq!(e.message, "Percentage cannot exceed 100: 255");
    assert_eq!(e.invalid_value, 255);
}

#[test]
fn port_error_messages_are_exact() {
    assert_eq!(Port::try_from(0u16).unwrap_err().0, "Port 0 is reserved");
    assert_eq!(Port::try_from(0i32).unwrap_err().0, "Port must be positive: 0");
    assert_eq!(Port::try_from(-5i32).unwrap_err().to_string(), "Port must be positive: -5");
    assert_eq!(Port::try_from(65536i32).unwrap_err().0, "Port exceeds max 65535: 65536");
    assert_eq!(Port::try_from(65535i32).unwrap().value(), 65535);
    assert!(Port::try_from(1023u16).unwrap().is_privileged());
    assert!(!Port::try_from(1024u16).unwrap().is_privileged());
}
