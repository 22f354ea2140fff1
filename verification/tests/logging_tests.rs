//! Logging is done by the server around the library; these tests record
//! where it is expected.

#[test]
fn test_logging_functions_exist() {
    // The logging functions live with the server glue; the test passes when
    // the crate builds.
}

#[test]
fn test_logging_integration_points() {
    // Logging is expected at: payment verification start and end, its
    // success or failure, payment header validation errors, configuration
    // errors, facilitator client errors and timeouts.
}

#[test]
fn test_logging_error_handling() {
    // Logging must not panic or interrupt the request flow.
}

#[test]
fn test_logging_levels() {
    // error: critical failures; warn: timeouts and malformed headers;
    // info: verified payments; debug: request flow.
}
