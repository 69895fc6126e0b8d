use bookstore::error::{
    error_page, handle_rejection, Error, Failure, Rejection, BAD_REQUEST, INTERNAL_SERVER_ERROR,
    METHOD_NOT_ALLOWED, NOT_FOUND,
};

fn nothing<'a>() -> Rejection<'a> {
    Rejection { not_found: false, invalid_body: false, error: None, method_not_allowed: false }
}

#[test]
fn status_codes_have_their_http_values() {
    assert_eq!(BAD_REQUEST, 400);
    assert_eq!(NOT_FOUND, 404);
    assert_eq!(METHOD_NOT_ALLOWED, 405);
    assert_eq!(INTERNAL_SERVER_ERROR, 500);
}

#[test]
fn missing_route_is_404() {
    let failure = handle_rejection(&Rejection { not_found: true, ..nothing() });
    assert_eq!(failure.code, 404);
    assert_eq!(failure.message, "Not Found");
}

#[test]
fn undecodable_body_is_400() {
    let failure = handle_rejection(&Rejection { invalid_body: true, ..nothing() });
    assert_eq!(failure.code, 400);
    assert_eq!(failure.message, "Invalid Body");
}

#[test]
fn unavailable_store_is_500() {
    let error = Error::DBAccessError;
    let failure = handle_rejection(&Rejection { error: Some(&error), ..nothing() });
    assert_eq!(failure.code, 500);
    assert_eq!(failure.message, "there was an error accessing the database");
}

#[test]
fn missing_book_is_404() {
    let error = Error::BookNotFoundError;
    let failure = handle_rejection(&Rejection { error: Some(&error), ..nothing() });
    assert_eq!(failure.code, 404);
    assert_eq!(failure.message, "book not found");
}

#[test]
fn template_error_is_500() {
    let error = Error::TemplateError("unexpected end of input".to_string());
    let failure = handle_rejection(&Rejection { error: Some(&error), ..nothing() });
    assert_eq!(failure.code, 500);
    assert_eq!(failure.message, "Internal Server Error");
}

#[test]
fn wrong_method_is_405() {
    let failure = handle_rejection(&Rejection { method_not_allowed: true, ..nothing() });
    assert_eq!(failure.code, 405);
    assert_eq!(failure.message, "Method Not Allowed");
}

#[test]
fn no_known_cause_is_500() {
    let failure = handle_rejection(&nothing());
    assert_eq!(failure.code, 500);
    assert_eq!(failure.message, "Internal Server Error");
}

#[test]
fn causes_are_ranked() {
    let unavailable = Error::DBAccessError;
    let missing = Error::BookNotFoundError;
    let all = Rejection {
        not_found: true,
        invalid_body: true,
        error: Some(&unavailable),
        method_not_allowed: true,
    };
    assert_eq!(handle_rejection(&all).code, 404);
    let failure = handle_rejection(&Rejection { not_found: false, ..all });
    assert_eq!(failure.code, 400);
    assert_eq!(failure.message, "Invalid Body");
    let failure = handle_rejection(&Rejection {
        error: Some(&unavailable),
        method_not_allowed: true,
        ..nothing()
    });
    assert_eq!(failure.code, 500);
    assert_eq!(failure.message, "there was an error accessing the database");
    let failure =
        handle_rejection(&Rejection { error: Some(&missing), method_not_allowed: true, ..nothing() });
    assert_eq!(failure.code, 404);
    assert_eq!(failure.message, "book not found");
    let failure = handle_rejection(&Rejection { invalid_body: true, error: Some(&missing), ..nothing() });
    assert_eq!(failure.code, 400);
    assert_eq!(failure.message, "Invalid Body");
}

#[test]
fn rendered_page_keeps_the_status() {
    let failure = Failure { code: 404, message: "Not Found" };
    let page = error_page(&failure, Some("<h1>Not Found</h1>".to_string()));
    assert_eq!(page, ("<h1>Not Found</h1>".to_string(), 404));
}

#[test]
fn failed_rendering_falls_back_to_the_message_under_500() {
    let failure = Failure { code: 404, message: "Not Found" };
    let page = error_page(&failure, None);
    assert_eq!(page, ("Not Found".to_string(), 500));
}
