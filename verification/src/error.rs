//! Everything that can go wrong, and how it is reported.

use vstd::prelude::*;

verus! {

/// A column that one of the two metadata queries is read for.
#[derive(Clone, Copy, Debug, PartialEq, Eq, Structural)]
pub enum Field {
    Title,
    Description,
    Version,
    Path,
    FnName,
    Request,
    Response,
}

/// Why the metadata could not be read from the rows of a query.
#[derive(Clone, Copy, Debug, PartialEq, Eq, Structural)]
pub enum FetchError {
    /// The info query did not return exactly one row.
    RowCount,
    /// A row has no column of that name.
    MissingColumn(Field),
    /// A column of that name holds something else than the field asks for.
    UnreadableColumn(Field),
}

/// Why a reload was not allowed.
#[derive(Clone, Copy, Debug, PartialEq, Eq, Structural)]
pub enum AuthError {
    /// The request carries no admin header.
    MissingToken,
    /// The header is not printable text.
    MalformedToken,
    /// The header is not the configured secret.
    WrongToken,
}

/// The kinds of failure, by which the status of a response is chosen.
#[derive(Clone, Copy, Debug, PartialEq, Eq, Structural)]
pub enum ErrorKind {
    Config,
    MetadataFetch,
    SchemaCompile,
    Validation,
    NotFound,
    Auth,
    Database,
    Serialization,
}

/// A failure of the relay. Those that come from outside carry the text
/// that came with them.
#[derive(Debug, PartialEq, Eq)]
pub enum Error {
    /// The configuration could not be read.
    Config(String),
    /// The rows of a metadata query do not have the agreed shape.
    MetadataFetch(FetchError),
    /// A request schema is no JSON Schema.
    SchemaCompile(String),
    /// A request body does not meet its endpoint's schema.
    Validation(String),
    /// No route, or no endpoint, answers the request.
    NotFound,
    /// The admin secret was asked for and not given.
    Auth(AuthError),
    /// The database, or a stored procedure, failed or answered out of shape.
    Database(String),
    /// A body is not JSON, or a document could not be written out.
    Serialization(String),
}

/// The name of the column that `field` is read from.
pub open spec fn column_name(field: Field) -> Seq<char> {
    match field {
        Field::Title => "title"@,
        Field::Description => "description"@,
        Field::Version => "version"@,
        Field::Path => "path"@,
        Field::FnName => "fn_name"@,
        Field::Request => "request"@,
        Field::Response => "response"@,
    }
}

/// The words for a field that no column of a row gave.
pub open spec fn missing_column_message(field: Field) -> Seq<char> {
    match field {
        Field::Title => "title column was not specified in info query"@,
        Field::Description => "description column was not specified in info query"@,
        Field::Version => "version column was not specified in info query"@,
        Field::Path => "path column was not returned from endpoints query"@,
        Field::FnName => "fn_name column was not returned from endpoints query"@,
        Field::Request => "request column was not returned from endpoints query"@,
        Field::Response => "response column was not returned from endpoints query"@,
    }
}

/// The words for a column that holds the wrong kind of value.
pub open spec fn unreadable_column_message(field: Field) -> Seq<char> {
    match field {
        Field::Title => "title column is not a string"@,
        Field::Description => "description column is not a string"@,
        Field::Version => "version column is not a string"@,
        Field::Path => "path column is not a string"@,
        Field::FnName => "fn_name column is not a string"@,
        Field::Request => "request column is not a JSON document"@,
        Field::Response => "response column is not a JSON document"@,
    }
}

/// The words for a failed read of the metadata.
pub open spec fn fetch_message(error: FetchError) -> Seq<char> {
    match error {
        FetchError::RowCount => "query returned an unexpected number of rows"@,
        FetchError::MissingColumn(field) => missing_column_message(field),
        FetchError::UnreadableColumn(field) => unreadable_column_message(field),
    }
}

/// The words for a refused reload.
pub open spec fn auth_message(error: AuthError) -> Seq<char> {
    match error {
        AuthError::MissingToken => "expected an admin-key header"@,
        AuthError::MalformedToken => "admin-key is not a valid string"@,
        AuthError::WrongToken => "incorrect admin-key"@,
    }
}

/// The status that a failure of a kind is answered with.
pub open spec fn kind_status(kind: ErrorKind) -> u16 {
    match kind {
        ErrorKind::NotFound => 404,
        ErrorKind::Auth => 401,
        ErrorKind::Validation => 400,
        ErrorKind::Serialization => 400,
        ErrorKind::Database => 502,
        ErrorKind::Config => 500,
        ErrorKind::MetadataFetch => 500,
        ErrorKind::SchemaCompile => 500,
    }
}

impl Field {
    /// The name of the column that this field is read from.
    pub fn name(&self) -> (name: &'static str)
        ensures
            name@ == column_name(*self),
    {
        match self {
            Field::Title => "title",
            Field::Description => "description",
            Field::Version => "version",
            Field::Path => "path",
            Field::FnName => "fn_name",
            Field::Request => "request",
            Field::Response => "response",
        }
    }
}

impl FetchError {
    /// The failure in words.
    pub fn message(&self) -> (text: String)
        ensures
            text@ == fetch_message(*self),
    {
        let words = match self {
            FetchError::RowCount => "query returned an unexpected number of rows",
            FetchError::MissingColumn(Field::Title) => "title column was not specified in info query",
            FetchError::MissingColumn(Field::Description) => "description column was not specified in info query",
            FetchError::MissingColumn(Field::Version) => "version column was not specified in info query",
            FetchError::MissingColumn(Field::Path) => "path column was not returned from endpoints query",
            FetchError::MissingColumn(Field::FnName) => "fn_name column was not returned from endpoints query",
            FetchError::MissingColumn(Field::Request) => "request column was not returned from endpoints query",
            FetchError::MissingColumn(Field::Response) => "response column was not returned from endpoints query",
            FetchError::UnreadableColumn(Field::Title) => "title column is not a string",
            FetchError::UnreadableColumn(Field::Description) => "description column is not a string",
            FetchError::UnreadableColumn(Field::Version) => "version column is not a string",
            FetchError::UnreadableColumn(Field::Path) => "path column is not a string",
            FetchError::UnreadableColumn(Field::FnName) => "fn_name column is not a string",
            FetchError::UnreadableColumn(Field::Request) => "request column is not a JSON document",
            FetchError::UnreadableColumn(Field::Response) => "response column is not a JSON document",
        };
        String::from_str(words)
    }
}

impl AuthError {
    /// The refusal in words.
    pub fn message(&self) -> (text: String)
        ensures
            text@ == auth_message(*self),
    {
        let words = match self {
            AuthError::MissingToken => "expected an admin-key header",
            AuthError::MalformedToken => "admin-key is not a valid string",
            AuthError::WrongToken => "incorrect admin-key",
        };
        String::from_str(words)
    }
}

impl Error {
    /// The kind of this failure.
    pub open spec fn kind_of(self) -> ErrorKind {
        match self {
            Error::Config(_) => ErrorKind::Config,
            Error::MetadataFetch(_) => ErrorKind::MetadataFetch,
            Error::SchemaCompile(_) => ErrorKind::SchemaCompile,
            Error::Validation(_) => ErrorKind::Validation,
            Error::NotFound => ErrorKind::NotFound,
            Error::Auth(_) => ErrorKind::Auth,
            Error::Database(_) => ErrorKind::Database,
            Error::Serialization(_) => ErrorKind::Serialization,
        }
    }

    /// This failure in words, as a response reports it.
    pub open spec fn message_of(self) -> Seq<char> {
        match self {
            Error::Config(text) => text@,
            Error::MetadataFetch(error) => fetch_message(error),
            Error::SchemaCompile(text) => text@,
            Error::Validation(text) => text@,
            Error::NotFound => "endpoint does not exist"@,
            Error::Auth(error) => auth_message(error),
            Error::Database(text) => text@,
            Error::Serialization(text) => text@,
        }
    }

    /// The kind of this failure.
    pub fn kind(&self) -> (kind: ErrorKind)
        ensures
            kind == self.kind_of(),
    {
        match self {
            Error::Config(_) => ErrorKind::Config,
            Error::MetadataFetch(_) => ErrorKind::MetadataFetch,
            Error::SchemaCompile(_) => ErrorKind::SchemaCompile,
            Error::Validation(_) => ErrorKind::Validation,
            Error::NotFound => ErrorKind::NotFound,
            Error::Auth(_) => ErrorKind::Auth,
            Error::Database(_) => ErrorKind::Database,
            Error::Serialization(_) => ErrorKind::Serialization,
        }
    }

    /// The status that a response to this failure carries: one status for
    /// each kind.
    pub fn status(&self) -> (status: u16)
        ensures
            status == kind_status(self.kind_of()),
    {
        match self {
            Error::NotFound => 404,
            Error::Auth(_) => 401,
            Error::Validation(_) => 400,
            Error::Serialization(_) => 400,
            Error::Database(_) => 502,
            Error::Config(_) => 500,
            Error::MetadataFetch(_) => 500,
            Error::SchemaCompile(_) => 500,
        }
    }

    /// This failure in words, as a response reports it.
    pub fn message(&self) -> (text: String)
        ensures
            text@ == self.message_of(),
    {
        match self {
            Error::Config(text) => text.clone(),
            Error::MetadataFetch(error) => error.message(),
            Error::SchemaCompile(text) => text.clone(),
            Error::Validation(text) => text.clone(),
            Error::NotFound => String::from_str("endpoint does not exist"),
            Error::Auth(error) => error.message(),
            Error::Database(text) => text.clone(),
            Error::Serialization(text) => text.clone(),
        }
    }
}

} // verus!
