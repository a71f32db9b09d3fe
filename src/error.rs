use vstd::prelude::*;

verus! {

/// The canonical failure categories, each with a fixed HTTP status.
#[derive(Clone, Copy, Debug, PartialEq, Eq, Structural)]
pub enum ErrorKind {
    /// The process is misconfigured (500).
    Configuration,
    /// The credential is absent, malformed or wrong (401).
    Auth,
    /// The request body cannot be used (400).
    MalformedRequest,
    /// A required part is absent (400).
    MissingField,
    /// The engine rejected the template or the data (500).
    Compilation,
    /// The compiled document could not be encoded (500).
    Encoding,
}

/// A terminal failure of one request.
#[derive(Debug)]
pub enum GatewayError {
    /// No shared secret is configured.
    MissingSecret,
    /// The request carries no readable authorization header.
    MissingCredentials,
    /// The authorization header uses another scheme.
    WrongScheme,
    /// The credential does not match the configured secret.
    BadCredentials,
    /// The multipart stream could not be read; holds the reader's diagnostic.
    UnreadableBody(String),
    /// The `data` part is not JSON; holds the parser's diagnostic.
    InvalidJson(String),
    /// No `template` part was sent.
    MissingTemplate,
    /// No `data` part was sent.
    MissingData,
    /// The engine failed to compile; holds its diagnostic.
    Compilation(String),
    /// The encoder failed; holds its diagnostic.
    Encoding(String),
}

pub open spec fn kind_of(e: GatewayError) -> ErrorKind {
    match e {
        GatewayError::MissingSecret => ErrorKind::Configuration,
        GatewayError::MissingCredentials => ErrorKind::Auth,
        GatewayError::WrongScheme => ErrorKind::Auth,
        GatewayError::BadCredentials => ErrorKind::Auth,
        GatewayError::UnreadableBody(_) => ErrorKind::MalformedRequest,
        GatewayError::InvalidJson(_) => ErrorKind::MalformedRequest,
        GatewayError::MissingTemplate => ErrorKind::MissingField,
        GatewayError::MissingData => ErrorKind::MissingField,
        GatewayError::Compilation(_) => ErrorKind::Compilation,
        GatewayError::Encoding(_) => ErrorKind::Encoding,
    }
}

pub open spec fn status_of(k: ErrorKind) -> u16 {
    match k {
        ErrorKind::Configuration => 500,
        ErrorKind::Auth => 401,
        ErrorKind::MalformedRequest => 400,
        ErrorKind::MissingField => 400,
        ErrorKind::Compilation => 500,
        ErrorKind::Encoding => 500,
    }
}

/// The plain-text diagnostic of an error.
pub open spec fn message_of(e: GatewayError) -> Seq<char> {
    match e {
        GatewayError::MissingSecret => "TYPST_SERVER_TOKEN is not defined"@,
        GatewayError::MissingCredentials => "Missing Authorization header"@,
        GatewayError::WrongScheme => "Invalid Authorization format"@,
        GatewayError::BadCredentials => "Invalid credentials"@,
        GatewayError::UnreadableBody(d) => "Invalid multipart body: "@ + d@,
        GatewayError::InvalidJson(d) => "Invalid JSON data: "@ + d@,
        GatewayError::MissingTemplate => "No template provided"@,
        GatewayError::MissingData => "No data provided"@,
        GatewayError::Compilation(d) => d@,
        GatewayError::Encoding(d) => d@,
    }
}

impl ErrorKind {
    /// The HTTP status of this category.
    pub fn status(&self) -> (r: u16)
        ensures
            r == status_of(*self),
    {
        match self {
            ErrorKind::Configuration => 500,
            ErrorKind::Auth => 401,
            ErrorKind::MalformedRequest => 400,
            ErrorKind::MissingField => 400,
            ErrorKind::Compilation => 500,
            ErrorKind::Encoding => 500,
        }
    }
}

impl GatewayError {
    /// The category of this error.
    pub fn kind(&self) -> (r: ErrorKind)
        ensures
            r == kind_of(*self),
    {
        match self {
            GatewayError::MissingSecret => ErrorKind::Configuration,
            GatewayError::MissingCredentials => ErrorKind::Auth,
            GatewayError::WrongScheme => ErrorKind::Auth,
            GatewayError::BadCredentials => ErrorKind::Auth,
            GatewayError::UnreadableBody(_) => ErrorKind::MalformedRequest,
        GatewayError::InvalidJson(_) => ErrorKind::MalformedRequest,
            GatewayError::MissingTemplate => ErrorKind::MissingField,
            GatewayError::MissingData => ErrorKind::MissingField,
            GatewayError::Compilation(_) => ErrorKind::Compilation,
            GatewayError::Encoding(_) => ErrorKind::Encoding,
        }
    }

    /// The HTTP status of this error.
    pub fn status(&self) -> (r: u16)
        ensures
            r == status_of(kind_of(*self)),
    {
        self.kind().status()
    }

    /// The plain-text diagnostic of this error.
    pub fn message(&self) -> (r: String)
        ensures
            r@ == message_of(*self),
    {
        match self {
            GatewayError::MissingSecret => String::from_str("TYPST_SERVER_TOKEN is not defined"),
            GatewayError::MissingCredentials => String::from_str("Missing Authorization header"),
            GatewayError::WrongScheme => String::from_str("Invalid Authorization format"),
            GatewayError::BadCredentials => String::from_str("Invalid credentials"),
            GatewayError::UnreadableBody(d) => String::from_str("Invalid multipart body: ").concat(
                d.as_str(),
            ),
            GatewayError::InvalidJson(d) => String::from_str("Invalid JSON data: ").concat(
                d.as_str(),
            ),
            GatewayError::MissingTemplate => String::from_str("No template provided"),
            GatewayError::MissingData => String::from_str("No data provided"),
            GatewayError::Compilation(d) => d.clone(),
            GatewayError::Encoding(d) => d.clone(),
        }
    }
}

} // verus!
