use diag_server::front_end::bind_address;
use diag_server::front_end::dmesg_response;
use diag_server::front_end::hello_response;
use diag_server::front_end::not_found_response;
use diag_server::front_end::route;
use diag_server::front_end::startup_message;
use diag_server::front_end::Route;
use diag_server::response::ContentType;

#[test]
fn root_greeting() {
    let r = hello_response();
    assert_eq!(r.status, 200);
    assert_eq!(r.content_type, ContentType::DefaultType);
    assert_eq!(r.body, b"Hello world!".to_vec());
}

#[test]
fn routing_is_exact() {
    assert_eq!(route("/"), Route::Root);
    assert_eq!(route("/dmesg"), Route::Dmesg);
    assert_eq!(route(""), Route::NotFound);
    assert_eq!(route("/dmesg/"), Route::NotFound);
    assert_eq!(route("/DMESG"), Route::NotFound);
    assert_eq!(route("/nonexistent"), Route::NotFound);
}

#[test]
fn unknown_path_is_not_found() {
    assert_eq!(route("/nonexistent"), Route::NotFound);
    let r = not_found_response();
    assert_eq!(r.status, 404);
    assert_eq!(r.content_type, ContentType::DefaultType);
    assert!(r.body.is_empty());
}

#[test]
fn dmesg_success_relays_output() {
    let (r, warning) = dmesg_response(Ok(b"kernel: ok\n".to_vec()));
    assert_eq!(r.status, 200);
    assert_eq!(r.content_type, ContentType::PlainText);
    assert_eq!(r.content_type.header_value(), Some("plain/text"));
    assert_eq!(r.body, b"kernel: ok\n".to_vec());
    assert_eq!(warning, None);
}

#[test]
fn dmesg_empty_output_is_success() {
    let (r, warning) = dmesg_response(Ok(Vec::new()));
    assert_eq!(r.status, 200);
    assert_eq!(r.content_type, ContentType::PlainText);
    assert!(r.body.is_empty());
    assert_eq!(warning, None);
}

#[test]
fn dmesg_launch_failure_is_500_with_one_warning() {
    let (r, warning) = dmesg_response(Err("No such file or directory".to_string()));
    assert_eq!(r.status, 500);
    assert_eq!(r.content_type, ContentType::DefaultType);
    assert!(r.body.is_empty());
    assert_eq!(
        warning,
        Some("Failed to run dmesg: No such file or directory".to_string())
    );
}

#[test]
fn identical_requests_get_identical_responses() {
    assert_eq!(hello_response(), hello_response());
    assert_eq!(not_found_response(), not_found_response());
    let stub = b"stub output".to_vec();
    assert_eq!(
        dmesg_response(Ok(stub.clone())),
        dmesg_response(Ok(stub.clone()))
    );
    assert_eq!(
        dmesg_response(Err("denied".to_string())),
        dmesg_response(Err("denied".to_string()))
    );
}

#[test]
fn fixed_configuration() {
    assert_eq!(bind_address(), "0.0.0.0:5000");
    assert_eq!(startup_message(), "Starting web server!!");
}

#[test]
fn content_type_header_values() {
    assert_eq!(ContentType::DefaultType.header_value(), None);
    assert_eq!(ContentType::PlainText.header_value(), Some("plain/text"));
}
