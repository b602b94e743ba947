use rincon::api::auth::{Authentication, Credentials};
use rincon::api::method::{Operation, Parameters, Prepare};
use rincon::connection::{authorization_header, build_request_uri, fallback_error, http_method_for_operation,
    is_success, percent_encode, request_uri, AuthorizationHeader, NOT_AUTHENTICATED};
use rincon::datasource::DataSource;

struct Prepared<'a> {
    operation: Operation,
    path: &'a str,
    params: Vec<(&'a str, &'a str)>,
}

impl<'a> Prepare for Prepared<'a> {
    type Content = ();

    fn operation(&self) -> Operation {
        self.operation
    }

    fn path(&self) -> String {
        String::from(self.path)
    }

    fn parameters(&self) -> Parameters {
        let mut params = Parameters::new();
        for &(name, value) in self.params.iter() {
            params.push(name, value);
        }
        params
    }

    fn header(&self) -> Parameters {
        Parameters::empty()
    }

    fn content(&self) -> Option<&Self::Content> {
        None
    }
}

fn datasource(url: &str) -> DataSource {
    DataSource::from_url(url, None).unwrap()
}

#[test]
fn build_request_uri_for_http() {
    let datasource = datasource("http://localhost:8529");
    let prepared = Prepared { operation: Operation::Read, path: "/_api/user", params: vec![] };

    let uri = build_request_uri(&datasource, &prepared);

    assert_eq!("http://localhost:8529/_api/user", uri);
}

#[test]
fn build_request_uri_for_https_with_authentication() {
    let datasource = datasource("https://localhost:8529")
        .with_authentication(Authentication::Basic(Credentials::new("micky".to_owned(), "pass".to_owned())));
    let prepared = Prepared { operation: Operation::Read, path: "/_api/user", params: vec![] };

    let uri = build_request_uri(&datasource, &prepared);

    assert_eq!("https://localhost:8529/_api/user", uri);
}

#[test]
fn build_request_uri_for_specific_database() {
    let datasource = datasource("https://localhost:8529").use_database("url_test");
    let prepared = Prepared { operation: Operation::Read, path: "/_api/collection", params: vec![] };

    let uri = build_request_uri(&datasource, &prepared);

    assert_eq!("https://localhost:8529/_db/url_test/_api/collection", uri);
}

#[test]
fn build_request_uri_for_specific_database_with_one_param() {
    let datasource = datasource("https://localhost:8529").use_database("the big data");
    let prepared = Prepared { operation: Operation::Read, path: "/_api/document", params: vec![("id", "25")] };

    let uri = build_request_uri(&datasource, &prepared);

    assert_eq!("https://localhost:8529/_db/the%20big%20data/_api/document?id=25", uri);
}

#[test]
fn build_request_uri_for_specific_database_with_two_params() {
    let datasource = datasource("https://localhost:8529").use_database("the büg data");
    let prepared = Prepared {
        operation: Operation::Read,
        path: "/_api/document",
        params: vec![("id", "25"), ("name", "JuneReport")],
    };

    let uri = build_request_uri(&datasource, &prepared);

    assert_eq!("https://localhost:8529/_db/the%20b%C3%BCg%20data/_api/document?id=25&name=JuneReport", uri);
}

#[test]
fn build_request_uri_for_specific_database_with_three_params() {
    let datasource = datasource("https://localhost:8529").use_database("the big data");
    let prepared = Prepared {
        operation: Operation::Read,
        path: "/_api/document",
        params: vec![("id", "25"), ("name", "JuneReport"), ("max", "42")],
    };

    let uri = build_request_uri(&datasource, &prepared);

    assert_eq!("https://localhost:8529/_db/the%20big%20data/_api/document?id=25&name=JuneReport&max=42", uri);
}

#[test]
fn percent_encode_leaves_plain_text_as_it_is() {
    assert_eq!("abc-XYZ_0.9~/:@!$&'()*+,;=", percent_encode("abc-XYZ_0.9~/:@!$&'()*+,;="));
}

#[test]
fn percent_encode_escapes_controls_specials_and_non_ascii() {
    assert_eq!("%20%22%23%3C%3E%3F%60%7B%7D%7F%0A", percent_encode(" \"#<>?`{}\u{7f}\n"));
    assert_eq!("%C3%BC%E2%82%AC%F0%9F%98%80", percent_encode("ü€😀"));
    assert_eq!("", percent_encode(""));
}

#[test]
fn request_uri_without_database_and_parameters() {
    let datasource = DataSource::default();
    let uri = request_uri(&datasource, "/_api/version", &Parameters::empty());
    assert_eq!("http://localhost:8529/_api/version", uri);
}

#[test]
fn http_methods_of_the_operations() {
    assert_eq!("POST", http_method_for_operation(&Operation::Create));
    assert_eq!("GET", http_method_for_operation(&Operation::Read));
    assert_eq!("PATCH", http_method_for_operation(&Operation::Modify));
    assert_eq!("PUT", http_method_for_operation(&Operation::Replace));
    assert_eq!("DELETE", http_method_for_operation(&Operation::Delete));
    assert_eq!("HEAD", http_method_for_operation(&Operation::ReadHeader));
}

#[test]
fn authorization_headers() {
    let basic = Authentication::Basic(Credentials::new("micky", "pass"));
    assert_eq!(Ok(AuthorizationHeader::Basic { username: "micky".to_owned(), password: "pass".to_owned() }),
        authorization_header(&basic, None));
    let jwt = Authentication::Jwt(Credentials::new("micky", "pass"));
    assert_eq!(Err(NOT_AUTHENTICATED.to_owned()), authorization_header(&jwt, None));
    let token = "t0k3n".to_owned();
    assert_eq!(Ok(AuthorizationHeader::Bearer("t0k3n".to_owned())), authorization_header(&jwt, Some(&token)));
    assert_eq!(Ok(AuthorizationHeader::NoHeader), authorization_header(&Authentication::NoAuthentication, None));
}

#[test]
fn success_status_codes() {
    assert!(is_success(200));
    assert!(is_success(299));
    assert!(!is_success(199));
    assert!(!is_success(300));
    assert!(!is_success(404));
}

#[test]
fn fallback_error_takes_the_body_or_the_description() {
    let error = fallback_error(404, "");
    assert_eq!(404, error.status_code());
    assert_eq!(rincon::api::error_code::ErrorCode::from_u16(404), error.error_code());
    assert_eq!(rincon::api::error_code::ErrorCode::from_u16(404).description(), error.message());
    let error = fallback_error(500, "boom");
    assert_eq!("boom", error.message());
}
