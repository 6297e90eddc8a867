//! Newtypes with infallible and fallible conversions.

use crate::render::decimal;
use crate::render::render_int;
use vstd::prelude::*;
use vstd::std_specs::convert::FromSpecImpl;
use vstd::std_specs::convert::TryFromSpecImpl;
use vstd::string::StringExecFns;

verus! {

/// A user's number.
pub struct UserId(pub u64);

/// An order's number.
pub struct OrderId(pub u64);

impl FromSpecImpl<u64> for UserId {
    open spec fn obeys_from_spec() -> bool {
        true
    }

    open spec fn from_spec(id: u64) -> UserId {
        UserId(id)
    }
}

impl From<u64> for UserId {
    fn from(id: u64) -> (r: UserId) {
        UserId(id)
    }
}

impl FromSpecImpl<u64> for OrderId {
    open spec fn obeys_from_spec() -> bool {
        true
    }

    open spec fn from_spec(id: u64) -> OrderId {
        OrderId(id)
    }
}

impl From<u64> for OrderId {
    fn from(id: u64) -> (r: OrderId) {
        OrderId(id)
    }
}

impl FromSpecImpl<UserId> for u64 {
    open spec fn obeys_from_spec() -> bool {
        true
    }

    open spec fn from_spec(id: UserId) -> u64 {
        id.0
    }
}

impl From<UserId> for u64 {
    fn from(id: UserId) -> (r: u64) {
        id.0
    }
}

impl FromSpecImpl<OrderId> for u64 {
    open spec fn obeys_from_spec() -> bool {
        true
    }

    open spec fn from_spec(id: OrderId) -> u64 {
        id.0
    }
}

impl From<OrderId> for u64 {
    fn from(id: OrderId) -> (r: u64) {
        id.0
    }
}

/// An e-mail address, kept as written.
#[derive(Debug, Clone, PartialEq)]
pub struct Email(pub String);

impl FromSpecImpl<String> for Email {
    open spec fn obeys_from_spec() -> bool {
        true
    }

    open spec fn from_spec(s: String) -> Email {
        Email(s)
    }
}

impl From<String> for Email {
    fn from(s: String) -> (r: Email) {
        Email(s)
    }
}

impl<'a> FromSpecImpl<&'a str> for Email {
    open spec fn obeys_from_spec() -> bool {
        false
    }

    open spec fn from_spec(s: &'a str) -> Email {
        arbitrary()
    }
}

impl<'a> From<&'a str> for Email {
    fn from(s: &'a str) -> (r: Email)
        ensures
            r.0@ == s@,
    {
        Email(s.to_owned())
    }
}

/// A user's name and address.
#[derive(Debug, Clone, PartialEq)]
pub struct UserAccount {
    pub name: String,
    pub email: Email,
}

impl UserAccount {
    /// An account from anything that converts into a name and an
    /// address; the fields are what the conversions give.
    pub fn new<N: Into<String>, E: Into<Email>>(name: N, email: E) -> (r: UserAccount)
        ensures
            call_ensures(N::into, (name,), r.name),
            call_ensures(E::into, (email,), r.email),
    {
        UserAccount { name: name.into(), email: email.into() }
    }
}

/// A whole number of percent between 0 and 100.
#[derive(Debug, Clone, Copy, PartialEq)]
pub struct Percentage(u8);

/// Why a number is no percentage.
#[derive(Debug, Clone, PartialEq)]
pub struct PercentageError {
    pub invalid_value: i32,
    pub message: String,
}

impl PercentageError {
    /// The message, as it is shown to a user.
    pub fn to_string(&self) -> (r: String)
        ensures
            r@ == self.message@,
    {
        self.message.clone()
    }
}

/// What is said of a negative number.
pub open spec fn negative_message(value: int) -> Seq<char> {
    "Percentage cannot be negative: "@ + decimal(value)
}

/// What is said of a number over 100.
pub open spec fn too_large_message(value: int) -> Seq<char> {
    "Percentage cannot exceed 100: "@ + decimal(value)
}

/// `prefix` followed by `value` in decimal.
fn labelled(prefix: &str, value: i64) -> (r: String)
    ensures
        r@ == prefix@ + decimal(value as int),
{
    let mut message = prefix.to_owned();
    let digits = render_int(value);
    message.append(digits.as_str());
    message
}

impl Percentage {
    pub closed spec fn spec_value(&self) -> int {
        self.0 as int
    }

    /// Every percentage lies between 0 and 100.
    #[verifier::type_invariant]
    pub closed spec fn wf(&self) -> bool {
        self.0 <= 100
    }

    /// The number of percent, between 0 and 100.
    pub fn value(&self) -> (r: u8)
        ensures
            r == self.spec_value(),
            r <= 100,
    {
        proof {
            use_type_invariant(self);
        }
        self.0
    }
}

impl TryFromSpecImpl<i32> for Percentage {
    open spec fn obeys_try_from_spec() -> bool {
        false
    }

    open spec fn try_from_spec(value: i32) -> Result<Percentage, PercentageError> {
        arbitrary()
    }
}

impl TryFrom<i32> for Percentage {
    type Error = PercentageError;

    fn try_from(value: i32) -> (r: Result<Percentage, PercentageError>)
        ensures
            r is Ok <==> 0 <= value <= 100,
            r is Ok ==> r->Ok_0.spec_value() == value,
            r is Err ==> r->Err_0.invalid_value == value,
            value < 0 ==> r is Err && r->Err_0.message@ == negative_message(value as int),
            value > 100 ==> r is Err && r->Err_0.message@ == too_large_message(value as int),
    {
        if value < 0 {
            Err(
                PercentageError {
                    invalid_value: value,
                    message: labelled("Percentage cannot be negative: ", value as i64),
                },
            )
        } else if value > 100 {
            Err(
                PercentageError {
                    invalid_value: value,
                    message: labelled("Percentage cannot exceed 100: ", value as i64),
                },
            )
        } else {
            Ok(Percentage(value as u8))
        }
    }
}

impl TryFromSpecImpl<u8> for Percentage {
    open spec fn obeys_try_from_spec() -> bool {
        false
    }

    open spec fn try_from_spec(value: u8) -> Result<Percentage, PercentageError> {
        arbitrary()
    }
}

impl TryFrom<u8> for Percentage {
    type Error = PercentageError;

    fn try_from(value: u8) -> (r: Result<Percentage, PercentageError>)
        ensures
            r is Ok <==> value <= 100,
            r is Ok ==> r->Ok_0.spec_value() == value,
            r is Err ==> r->Err_0.invalid_value == value && r->Err_0.message@
                == too_large_message(value as int),
    {
        if value > 100 {
            Err(
                PercentageError {
                    invalid_value: value as i32,
                    message: labelled("Percentage cannot exceed 100: ", value as i64),
                },
            )
        } else {
            Ok(Percentage(value))
        }
    }
}

/// A network port; never 0.
#[derive(Debug, Clone, Copy, PartialEq, Eq)]
pub struct Port(u16);

/// Why a number is no port.
#[derive(Debug, Clone, PartialEq)]
pub struct PortError(pub String);

impl PortError {
    /// The message, as it is shown to a user.
    pub fn to_string(&self) -> (r: String)
        ensures
            r@ == self.0@,
    {
        self.0.clone()
    }
}

impl Port {
    pub closed spec fn spec_value(&self) -> int {
        self.0 as int
    }

    /// A port is never 0.
    #[verifier::type_invariant]
    pub closed spec fn wf(&self) -> bool {
        self.0 != 0
    }

    /// The port's number, never 0.
    pub fn value(&self) -> (r: u16)
        ensures
            r == self.spec_value(),
            r != 0,
    {
        proof {
            use_type_invariant(self);
        }
        self.0
    }

    /// Ports below 1024 are reserved to the system.
    pub fn is_privileged(&self) -> (r: bool)
        ensures
            r == (self.spec_value() < 1024),
    {
        self.0 < 1024
    }
}

impl TryFromSpecImpl<u16> for Port {
    open spec fn obeys_try_from_spec() -> bool {
        false
    }

    open spec fn try_from_spec(value: u16) -> Result<Port, PortError> {
        arbitrary()
    }
}

impl TryFrom<u16> for Port {
    type Error = PortError;

    fn try_from(value: u16) -> (r: Result<Port, PortError>)
        ensures
            r is Ok <==> value != 0,
            r is Ok ==> r->Ok_0.spec_value() == value,
            r is Err ==> r->Err_0.0@ == "Port 0 is reserved"@,
    {
        if value == 0 {
            Err(PortError("Port 0 is reserved".to_owned()))
        } else {
            Ok(Port(value))
        }
    }
}

impl TryFromSpecImpl<i32> for Port {
    open spec fn obeys_try_from_spec() -> bool {
        false
    }

    open spec fn try_from_spec(value: i32) -> Result<Port, PortError> {
        arbitrary()
    }
}

impl TryFrom<i32> for Port {
    type Error = PortError;

    fn try_from(value: i32) -> (r: Result<Port, PortError>)
        ensures
            r is Ok <==> 0 < value <= 65535,
            r is Ok ==> r->Ok_0.spec_value() == value,
            value <= 0 ==> r is Err && r->Err_0.0@ == "Port must be positive: "@ + decimal(
                value as int,
            ),
            value > 65535 ==> r is Err && r->Err_0.0@ == "Port exceeds max 65535: "@ + decimal(
                value as int,
            ),
    {
        if value <= 0 {
            Err(PortError(labelled("Port must be positive: ", value as i64)))
        } else if value > 65535 {
            Err(PortError(labelled("Port exceeds max 65535: ", value as i64)))
        } else {
            Ok(Port(value as u16))
        }
    }
}

} // verus!
