use pg_relay::error::{AuthError, Error, ErrorKind, FetchError, Field};
use pg_relay::leak;

#[test]
fn every_kind_has_one_status() {
    assert_eq!(Error::NotFound.status(), 404);
    assert_eq!(Error::Auth(AuthError::MissingToken).status(), 401);
    assert_eq!(Error::Auth(AuthError::MalformedToken).status(), 401);
    assert_eq!(Error::Auth(AuthError::WrongToken).status(), 401);
    assert_eq!(Error::Validation("v".to_string()).status(), 400);
    assert_eq!(Error::Serialization("s".to_string()).status(), 400);
    assert_eq!(Error::Database("d".to_string()).status(), 502);
    assert_eq!(Error::Config("c".to_string()).status(), 500);
    assert_eq!(Error::MetadataFetch(FetchError::RowCount).status(), 500);
    assert_eq!(Error::SchemaCompile("s".to_string()).status(), 500);
}

#[test]
fn every_failure_has_its_kind() {
    assert_eq!(Error::NotFound.kind(), ErrorKind::NotFound);
    assert_eq!(Error::Auth(AuthError::WrongToken).kind(), ErrorKind::Auth);
    assert_eq!(Error::Validation("v".to_string()).kind(), ErrorKind::Validation);
    assert_eq!(Error::Serialization("s".to_string()).kind(), ErrorKind::Serialization);
    assert_eq!(Error::Database("d".to_string()).kind(), ErrorKind::Database);
    assert_eq!(Error::Config("c".to_string()).kind(), ErrorKind::Config);
    assert_eq!(
        Error::MetadataFetch(FetchError::MissingColumn(Field::Path)).kind(),
        ErrorKind::MetadataFetch
    );
    assert_eq!(Error::SchemaCompile("s".to_string()).kind(), ErrorKind::SchemaCompile);
}

#[test]
fn failures_from_outside_keep_their_words() {
    assert_eq!(Error::Validation("too long".to_string()).message(), "too long");
    assert_eq!(Error::Serialization("eof".to_string()).message(), "eof");
    assert_eq!(Error::Database("down".to_string()).message(), "down");
    assert_eq!(Error::Config("no file".to_string()).message(), "no file");
    assert_eq!(Error::SchemaCompile("bad".to_string()).message(), "bad");
}

#[test]
fn failures_of_the_relay_have_fixed_words() {
    assert_eq!(Error::NotFound.message(), "endpoint does not exist");
    assert_eq!(
        Error::Auth(AuthError::MissingToken).message(),
        "expected an admin-key header"
    );
    assert_eq!(
        Error::Auth(AuthError::MalformedToken).message(),
        "admin-key is not a valid string"
    );
    assert_eq!(Error::Auth(AuthError::WrongToken).message(), "incorrect admin-key");
    assert_eq!(
        Error::MetadataFetch(FetchError::RowCount).message(),
        "query returned an unexpected number of rows"
    );
}

#[test]
fn a_missing_column_is_named() {
    let words = |field| FetchError::MissingColumn(field).message();
    assert_eq!(words(Field::Title), "title column was not specified in info query");
    assert_eq!(
        words(Field::Description),
        "description column was not specified in info query"
    );
    assert_eq!(words(Field::Version), "version column was not specified in info query");
    assert_eq!(words(Field::Path), "path column was not returned from endpoints query");
    assert_eq!(
        words(Field::FnName),
        "fn_name column was not returned from endpoints query"
    );
    assert_eq!(
        words(Field::Request),
        "request column was not returned from endpoints query"
    );
    assert_eq!(
        words(Field::Response),
        "response column was not returned from endpoints query"
    );
}

#[test]
fn an_unreadable_column_is_named() {
    let words = |field| FetchError::UnreadableColumn(field).message();
    assert_eq!(words(Field::Title), "title column is not a string");
    assert_eq!(words(Field::Description), "description column is not a string");
    assert_eq!(words(Field::Version), "version column is not a string");
    assert_eq!(words(Field::Path), "path column is not a string");
    assert_eq!(words(Field::FnName), "fn_name column is not a string");
    assert_eq!(words(Field::Request), "request column is not a JSON document");
    assert_eq!(words(Field::Response), "response column is not a JSON document");
}

#[test]
fn fields_are_read_from_their_columns() {
    assert_eq!(Field::Title.name(), "title");
    assert_eq!(Field::Description.name(), "description");
    assert_eq!(Field::Version.name(), "version");
    assert_eq!(Field::Path.name(), "path");
    assert_eq!(Field::FnName.name(), "fn_name");
    assert_eq!(Field::Request.name(), "request");
    assert_eq!(Field::Response.name(), "response");
}

#[test]
fn leak_keeps_the_value() {
    let shared: &'static String = leak("kept".to_string());
    assert_eq!(shared, "kept");
    let number: &'static u32 = leak(7u32);
    assert_eq!(*number, 7);
}
