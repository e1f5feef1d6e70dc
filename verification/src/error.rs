//! The protocol error taxonomy and its mapping to gateway responses.
//!
//! Every failure of a device interaction is one of a closed set of
//! variants; the classifier maps each to exactly one outward category
//! and gateway HTTP status: unreachable devices to 502, timeouts to
//! 504, and every device-side failure to 503. Only a device rejection
//! carries the device's own status code onward.

use vstd::prelude::*;

use crate::numbers::dec_str;
use crate::numbers::int_dec_str;
use crate::numbers::i64_to_string;
use crate::numbers::u64_to_string;
use crate::protocol::FieldValue;
use crate::protocol::ResponseField;

verus! {

/// The library's reading of a transport-level failure.
#[derive(Clone, Copy, Debug, PartialEq, Eq, Structural)]
pub enum TransportFailure {
    /// The request timed out.
    Timeout,
    /// The connection could not be established.
    Connect,
    /// Any other transport failure.
    Other,
}

/// A failed device interaction.
#[derive(Clone, Debug, PartialEq, Eq)]
pub enum PixooError {
    /// The HTTP request itself failed, before any status came back.
    Http { kind: TransportFailure, message: String },
    /// The device answered with a non-2xx status.
    HttpStatus(u16),
    /// The configured base URL does not parse.
    InvalidBaseUrl(String),
    /// The response body is not a JSON object.
    InvalidResponse(String),
    /// The response object has no `error_code` field.
    MissingErrorCode,
    /// The `error_code` field holds no integer.
    InvalidErrorCode(FieldValue),
    /// The device reported a nonzero status code.
    DeviceError { code: i64, payload: Vec<ResponseField> },
}

/// The outward category of a protocol error.
#[derive(Clone, Copy, Debug, PartialEq, Eq, Structural)]
pub enum PixooErrorCategory {
    Unreachable,
    Timeout,
    DeviceError,
    Unknown,
}

impl PixooError {
    /// The category this error maps to: transport failures split into
    /// unreachable and timeout, every device-side failure is a device
    /// error, and only a bad base URL is unknown.
    pub open spec fn spec_category(self) -> PixooErrorCategory {
        match self {
            PixooError::Http { kind, .. } => match kind {
                TransportFailure::Timeout => PixooErrorCategory::Timeout,
                TransportFailure::Connect => PixooErrorCategory::Unreachable,
                TransportFailure::Other => PixooErrorCategory::DeviceError,
            },
            PixooError::HttpStatus(_) => PixooErrorCategory::DeviceError,
            PixooError::InvalidResponse(_) => PixooErrorCategory::DeviceError,
            PixooError::MissingErrorCode => PixooErrorCategory::DeviceError,
            PixooError::InvalidErrorCode(_) => PixooErrorCategory::DeviceError,
            PixooError::DeviceError { .. } => PixooErrorCategory::DeviceError,
            PixooError::InvalidBaseUrl(_) => PixooErrorCategory::Unknown,
        }
    }

    /// The HTTP status the device answered with, if that is what failed.
    pub open spec fn spec_http_status(self) -> Option<u16> {
        match self {
            PixooError::HttpStatus(status) => Some(status),
            _ => None,
        }
    }

    /// The device's status code, if the device rejected the command.
    pub open spec fn spec_error_code(self) -> Option<i64> {
        match self {
            PixooError::DeviceError { code, .. } => Some(code),
            _ => None,
        }
    }

    pub fn http_status(&self) -> (r: Option<u16>)
        ensures
            r == self.spec_http_status(),
    {
        match self {
            PixooError::HttpStatus(status) => Some(*status),
            _ => None,
        }
    }

    pub fn error_code(&self) -> (r: Option<i64>)
        ensures
            r == self.spec_error_code(),
    {
        match self {
            PixooError::DeviceError { code, .. } => Some(*code),
            _ => None,
        }
    }

    /// The diagnostic payload of a device rejection.
    pub fn payload(&self) -> (r: Option<&Vec<ResponseField>>)
        ensures
            match *self {
                PixooError::DeviceError { payload, .. } => r matches Some(p) && *p == payload,
                _ => r is None,
            },
    {
        match self {
            PixooError::DeviceError { payload, .. } => Some(payload),
            _ => None,
        }
    }

    pub fn category(&self) -> (r: PixooErrorCategory)
        ensures
            r == self.spec_category(),
    {
        match self {
            PixooError::Http { kind, .. } => match kind {
                TransportFailure::Timeout => PixooErrorCategory::Timeout,
                TransportFailure::Connect => PixooErrorCategory::Unreachable,
                TransportFailure::Other => PixooErrorCategory::DeviceError,
            },
            PixooError::HttpStatus(_) => PixooErrorCategory::DeviceError,
            PixooError::InvalidResponse(_) => PixooErrorCategory::DeviceError,
            PixooError::MissingErrorCode => PixooErrorCategory::DeviceError,
            PixooError::InvalidErrorCode(_) => PixooErrorCategory::DeviceError,
            PixooError::DeviceError { .. } => PixooErrorCategory::DeviceError,
            PixooError::InvalidBaseUrl(_) => PixooErrorCategory::Unknown,
        }
    }

    /// The human-readable description of this error.
    pub open spec fn spec_describe(self) -> Seq<char> {
        match self {
            PixooError::Http { message, .. } => "http error: "@ + message@,
            PixooError::HttpStatus(status) => "unexpected HTTP status: "@ + dec_str(
                status as int,
            ),
            PixooError::InvalidBaseUrl(message) => "invalid base url: "@ + message@,
            PixooError::InvalidResponse(message) => "invalid response: "@ + message@,
            PixooError::MissingErrorCode => "missing error_code in response"@,
            PixooError::InvalidErrorCode(value) => "invalid error_code value: "@
                + spec_describe_field(value),
            PixooError::DeviceError { code, .. } => "device returned error_code "@ + int_dec_str(
                code as int,
            ),
        }
    }

    /// Renders this error for logs and gateway messages.
    pub fn describe(&self) -> (r: String)
        ensures
            r@ == self.spec_describe(),
    {
        match self {
            PixooError::Http { message, .. } => {
                let mut s = String::from_str("http error: ");
                s.append(message.as_str());
                s
            },
            PixooError::HttpStatus(status) => {
                let mut s = String::from_str("unexpected HTTP status: ");
                s.append(u64_to_string(*status as u64).as_str());
                s
            },
            PixooError::InvalidBaseUrl(message) => {
                let mut s = String::from_str("invalid base url: ");
                s.append(message.as_str());
                s
            },
            PixooError::InvalidResponse(message) => {
                let mut s = String::from_str("invalid response: ");
                s.append(message.as_str());
                s
            },
            PixooError::MissingErrorCode => String::from_str("missing error_code in response"),
            PixooError::InvalidErrorCode(value) => {
                let mut s = String::from_str("invalid error_code value: ");
                s.append(describe_field(value).as_str());
                s
            },
            PixooError::DeviceError { code, .. } => {
                let mut s = String::from_str("device returned error_code ");
                s.append(i64_to_string(*code).as_str());
                s
            },
        }
    }
}

/// How an `error_code` field that held no integer is rendered.
pub open spec fn spec_describe_field(v: FieldValue) -> Seq<char> {
    match v {
        FieldValue::Int(i) => int_dec_str(i as int),
        FieldValue::Text(t) => t@,
        FieldValue::BigNumber => "a non-integer number"@,
        FieldValue::Other => "a non-numeric value"@,
    }
}

fn describe_field(v: &FieldValue) -> (r: String)
    ensures
        r@ == spec_describe_field(*v),
{
    match v {
        FieldValue::Int(i) => i64_to_string(*i),
        FieldValue::Text(t) => t.clone(),
        FieldValue::BigNumber => String::from_str("a non-integer number"),
        FieldValue::Other => String::from_str("a non-numeric value"),
    }
}

/// The outward error kind of a gateway response.
#[derive(Clone, Copy, Debug, PartialEq, Eq, Structural)]
pub enum PixooHttpErrorKind {
    Unreachable,
    Timeout,
    DeviceError,
}

/// The body of a gateway error response.
#[derive(Clone, Debug)]
pub struct PixooHttpErrorResponse {
    /// The gateway HTTP status, repeated in the body.
    pub error_status: u16,
    /// Call context and the underlying error, for a human reader.
    pub message: String,
    pub error_kind: PixooHttpErrorKind,
    /// The device's own status code, only for a device rejection.
    pub error_code: Option<i64>,
}

/// The outward kind a category maps to.
pub open spec fn spec_error_kind(c: PixooErrorCategory) -> PixooHttpErrorKind {
    match c {
        PixooErrorCategory::Unreachable => PixooHttpErrorKind::Unreachable,
        PixooErrorCategory::Timeout => PixooHttpErrorKind::Timeout,
        PixooErrorCategory::DeviceError => PixooHttpErrorKind::DeviceError,
        PixooErrorCategory::Unknown => PixooHttpErrorKind::DeviceError,
    }
}

/// The gateway status of an outward kind: 502 for an unreachable
/// device, 504 for a timeout, 503 for every device-side failure.
pub open spec fn spec_gateway_status(k: PixooHttpErrorKind) -> u16 {
    match k {
        PixooHttpErrorKind::Unreachable => 502,
        PixooHttpErrorKind::Timeout => 504,
        PixooHttpErrorKind::DeviceError => 503,
    }
}

/// Maps a protocol error to the gateway's outward error response:
/// exactly one kind, the kind's gateway status, a message naming the
/// call context, and the device code only when the device rejected the
/// command.
pub fn map_pixoo_error(error: &PixooError, context: &str) -> (r: PixooHttpErrorResponse)
    ensures
        r.error_kind == spec_error_kind(error.spec_category()),
        r.error_status == spec_gateway_status(r.error_kind),
        r.error_code == error.spec_error_code(),
        r.message@ == context@ + ": "@ + error.spec_describe(),
{
    let kind = match error.category() {
        PixooErrorCategory::Unreachable => PixooHttpErrorKind::Unreachable,
        PixooErrorCategory::Timeout => PixooHttpErrorKind::Timeout,
        PixooErrorCategory::DeviceError => PixooHttpErrorKind::DeviceError,
        PixooErrorCategory::Unknown => PixooHttpErrorKind::DeviceError,
    };
    let status: u16 = match kind {
        PixooHttpErrorKind::Unreachable => 502,
        PixooHttpErrorKind::Timeout => 504,
        PixooHttpErrorKind::DeviceError => 503,
    };
    let mut message = String::from_str(context);
    message.append(": ");
    message.append(error.describe().as_str());
    PixooHttpErrorResponse {
        error_status: status,
        message,
        error_kind: kind,
        error_code: error.error_code(),
    }
}

} // verus!
