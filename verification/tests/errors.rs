use webservice::errors::AppError;

#[test]
fn db_error_maps_to_500() {
    let e = AppError::DBError(String::from("connection lost"));
    assert_eq!(e.status_code(), 500);
    assert_eq!(e.error_message(), "connection lost");
}

#[test]
fn not_found_maps_to_404() {
    let e = AppError::NotFound(String::from("Course not found"));
    assert_eq!(e.status_code(), 404);
    assert_eq!(e.error_message(), "Course not found");
}

#[test]
fn invalid_input_maps_to_400() {
    let e = AppError::InvalidInput(String::from("Please provide valid JSON input"));
    assert_eq!(e.status_code(), 400);
    assert_eq!(e.error_message(), "Please provide valid JSON input");
}
