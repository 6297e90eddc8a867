//! Configuration errors, validation errors and the errors of a whole
//! application, with the texts they show.

use crate::numbers::parse_i32;
use crate::numbers::text_i32;
use crate::render::decimal;
use crate::render::render_int;
use vstd::prelude::*;
use vstd::std_specs::convert::FromSpecImpl;
use vstd::string::StringExecFns;

verus! {

/// `std::io::Error`, carried through as an opaque value.
#[verifier::external_type_specification]
#[verifier::external_body]
pub struct ExIoError(std::io::Error);

/// Calls `to_string` of `std::io::Error`. The text may depend on the
/// operating system, so nothing is said of it.
#[verifier::external_body]
fn io_error_text(e: &std::io::Error) -> (r: String) {
    e.to_string()
}

/// Calls `to_string` of `std::num::ParseIntError`.
#[verifier::external_body]
fn parse_error_text(e: &std::num::ParseIntError) -> (r: String) {
    e.to_string()
}

/// What is wrong with a configuration.
#[derive(Debug)]
pub enum ConfigError {
    MissingField { field: String },
    InvalidValue { field: String, value: String, reason: String },
    OutOfRange { field: String, value: i32, min: i32, max: i32 },
}

impl ConfigError {
    /// The text of the error.
    pub open spec fn text(&self) -> Seq<char> {
        match self {
            ConfigError::MissingField { field } => "missing required field: '"@ + field@ + "'"@,
            ConfigError::InvalidValue { field, value, reason } => "invalid value '"@ + value@
                + "' for field '"@ + field@ + "': "@ + reason@,
            ConfigError::OutOfRange { field, value, min, max } => "value "@ + decimal(*value as int) + " for '"@ + field@ + "' out of range ["@ + decimal(*min as int) + ", "@ + decimal(*max as int) + "]"@,
        }
    }

    /// The error as it is shown to a user.
    pub fn to_string(&self) -> (r: String)
        ensures
            r@ == self.text(),
    {
        match self {
            ConfigError::MissingField { field } => {
                let mut out = "missing required field: '".to_owned();
                out.append(field.as_str());
                out.append("'");
                out
            },
            ConfigError::InvalidValue { field, value, reason } => {
                let mut out = "invalid value '".to_owned();
                out.append(value.as_str());
                out.append("' for field '");
                out.append(field.as_str());
                out.append("': ");
                out.append(reason.as_str());
                out
            },
            ConfigError::OutOfRange { field, value, min, max } => {
                let mut out = "value ".to_owned();
                out.append(render_int(*value as i64).as_str());
                out.append(" for '");
                out.append(field.as_str());
                out.append("' out of range [");
                out.append(render_int(*min as i64).as_str());
                out.append(", ");
                out.append(render_int(*max as i64).as_str());
                out.append("]");
                out
            },
        }
    }
}

/// A field that failed validation, and why.
#[derive(Debug)]
pub struct ValidationError {
    pub field: String,
    pub message: String,
}

impl ValidationError {
    /// An error from anything that converts into a field name and a
    /// message; the fields are what the conversions give.
    pub fn new<F: Into<String>, M: Into<String>>(field: F, message: M) -> (r: ValidationError)
        ensures
            call_ensures(F::into, (field,), r.field),
            call_ensures(M::into, (message,), r.message),
    {
        let field = field.into();
        let message = message.into();
        ValidationError { field, message }
    }

    /// The error as it is shown to a user.
    pub fn to_string(&self) -> (r: String)
        ensures
            r@ == "validation failed for '"@ + self.field@ + "': "@ + self.message@,
    {
        let mut out = "validation failed for '".to_owned();
        out.append(self.field.as_str());
        out.append("': ");
        out.append(self.message.as_str());
        out
    }
}

/// Whatever can go wrong in the application.
#[derive(Debug)]
pub enum AppError {
    Config(ConfigError),
    Io(std::io::Error),
    Parse { context: String, source: std::num::ParseIntError },
}

impl AppError {
    /// The error as it is shown to a user: a word for its kind, then
    /// the detail.
    pub fn to_string(&self) -> (r: String)
        ensures
            match self {
                AppError::Config(e) => r@ == "configuration error: "@ + e.text(),
                AppError::Io(_) => exists|detail: Seq<char>| r@ == "IO error: "@ + detail,
                AppError::Parse { context, .. } => r@ == "parse error: "@ + context@,
            },
    {
        match self {
            AppError::Config(e) => {
                let mut out = "configuration error: ".to_owned();
                out.append(e.to_string().as_str());
                out
            },
            AppError::Io(e) => {
                let mut out = "IO error: ".to_owned();
                let detail = io_error_text(e);
                out.append(detail.as_str());
                out
            },
            AppError::Parse { context, .. } => {
                let mut out = "parse error: ".to_owned();
                out.append(context.as_str());
                out
            },
        }
    }

    /// The text of the error that caused this one. Every application
    /// error has a cause.
    pub fn source_text(&self) -> (r: Option<String>)
        ensures
            r is Some,
            self is Config ==> r.unwrap()@ == self->Config_0.text(),
    {
        match self {
            AppError::Config(e) => Some(e.to_string()),
            AppError::Io(e) => Some(io_error_text(e)),
            AppError::Parse { source, .. } => Some(parse_error_text(source)),
        }
    }
}

impl FromSpecImpl<ConfigError> for AppError {
    open spec fn obeys_from_spec() -> bool {
        true
    }

    open spec fn from_spec(err: ConfigError) -> AppError {
        AppError::Config(err)
    }
}

impl From<ConfigError> for AppError {
    fn from(err: ConfigError) -> (r: AppError) {
        AppError::Config(err)
    }
}

impl FromSpecImpl<std::io::Error> for AppError {
    open spec fn obeys_from_spec() -> bool {
        true
    }

    open spec fn from_spec(err: std::io::Error) -> AppError {
        AppError::Io(err)
    }
}

impl From<std::io::Error> for AppError {
    fn from(err: std::io::Error) -> (r: AppError) {
        AppError::Io(err)
    }
}

/// The content of a configuration file, refused if it is empty.
pub fn check_content(content: String) -> (r: Result<String, AppError>)
    ensures
        content@.len() > 0 ==> r == Ok::<String, AppError>(content),
        content@.len() == 0 ==> r is Err && r->Err_0 is Config && r->Err_0->Config_0
            is MissingField && r->Err_0->Config_0->MissingField_field@ == "content"@,
{
    if content.as_str().is_empty() {
        Err(AppError::Config(ConfigError::MissingField { field: "content".to_owned() }))
    } else {
        Ok(content)
    }
}

/// The port that a parsed number stands for: a number from 1 to 65535.
/// `text` is what was parsed; it is quoted where parsing failed.
pub fn port_from(parsed: Result<i32, std::num::ParseIntError>, text: &str) -> (r: Result<
    u16,
    AppError,
>)
    ensures
        r is Ok <==> parsed is Ok && 1 <= parsed->Ok_0 <= 65535,
        r is Ok ==> r->Ok_0 == parsed->Ok_0,
        parsed is Err ==> r is Err && r->Err_0 is Parse && r->Err_0->Parse_source == parsed->Err_0
            && r->Err_0->Parse_context@ == "invalid port: '"@ + text@ + "'"@,
        parsed is Ok && !(1 <= parsed->Ok_0 <= 65535) ==> r is Err && r->Err_0 is Config
            && r->Err_0->Config_0 is OutOfRange && r->Err_0->Config_0->OutOfRange_field@ == "port"@
            && r->Err_0->Config_0->OutOfRange_value == parsed->Ok_0
            && r->Err_0->Config_0->OutOfRange_min == 1 && r->Err_0->Config_0->OutOfRange_max
            == 65535,
{
    match parsed {
        Err(source) => {
            let mut context = "invalid port: '".to_owned();
            context.append(text);
            context.append("'");
            Err(AppError::Parse { context, source })
        },
        Ok(port) => {
            if port < 1 || port > 65535 {
                Err(
                    AppError::Config(
                        ConfigError::OutOfRange {
                            field: "port".to_owned(),
                            value: port,
                            min: 1,
                            max: 65535,
                        },
                    ),
                )
            } else {
                Ok(port as u16)
            }
        },
    }
}

/// Reads a port from a text: a decimal number from 1 to 65535.
pub fn parse_port(s: &str) -> (r: Result<u16, AppError>)
    ensures
        r is Ok <==> text_i32(s@) is Some && 1 <= text_i32(s@).unwrap() <= 65535,
        r is Ok ==> r->Ok_0 == text_i32(s@).unwrap(),
        text_i32(s@) is None ==> r is Err && r->Err_0 is Parse && r->Err_0->Parse_context@
            == "invalid port: '"@ + s@ + "'"@,
        text_i32(s@) is Some && r is Err ==> r->Err_0 is Config && r->Err_0->Config_0
            is OutOfRange && r->Err_0->Config_0->OutOfRange_value == text_i32(s@).unwrap(),
{
    port_from(parse_i32(s), s)
}

} // verus!
