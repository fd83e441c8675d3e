use libasi::{check_return_code, AsiError, SdkCall};

fn failure(call: SdkCall, code: i32) -> String {
    match check_return_code(call, code) {
        Ok(()) => panic!("code {} passed for success", code),
        Err(AsiError::GenericError(message)) => message,
    }
}

#[test]
fn zero_is_success_for_every_call() {
    let calls = [
        SdkCall::GetCameraProperty,
        SdkCall::OpenCamera,
        SdkCall::InitCamera,
        SdkCall::CloseCamera,
        SdkCall::StopVideoCapture,
        SdkCall::StartExposure,
        SdkCall::GetExpStatus,
        SdkCall::GetDataAfterExp,
    ];
    for call in calls {
        assert!(check_return_code(call, 0).is_ok());
    }
}

#[test]
fn any_other_code_is_a_failure() {
    for code in [1, 2, 16, 18, -1, i32::MAX, i32::MIN] {
        assert!(check_return_code(SdkCall::OpenCamera, code).is_err());
    }
}

#[test]
fn failure_of_the_property_query() {
    assert_eq!(
        failure(SdkCall::GetCameraProperty, 2),
        "Could not get camera properties, return code: 2"
    );
}

#[test]
fn failure_of_opening() {
    assert_eq!(failure(SdkCall::OpenCamera, 4), "Could not open camera, return code: 4");
}

#[test]
fn failure_of_initializing() {
    assert_eq!(failure(SdkCall::InitCamera, 16), "Could not initialize camera, return code: 16");
}

#[test]
fn failure_of_closing() {
    assert_eq!(failure(SdkCall::CloseCamera, 1), "Could not close camera, return code: 1");
}

#[test]
fn failure_of_stopping_video() {
    assert_eq!(
        failure(SdkCall::StopVideoCapture, 3),
        "Could not stop video mode, return code: 3"
    );
}

#[test]
fn failure_of_starting_the_exposure() {
    assert_eq!(failure(SdkCall::StartExposure, 15), "Could not start exposure, return code: 15");
}

#[test]
fn failure_of_the_status_query() {
    assert_eq!(
        failure(SdkCall::GetExpStatus, 11),
        "Failed to get exposure status, return code: 11"
    );
}

#[test]
fn failure_of_the_download() {
    assert_eq!(
        failure(SdkCall::GetDataAfterExp, 13),
        "Could not get exposure data, return code: 13"
    );
}

#[test]
fn failure_with_a_negative_code() {
    assert_eq!(failure(SdkCall::CloseCamera, -7), "Could not close camera, return code: -7");
}

#[test]
fn failure_message_is_the_message_of_the_error() {
    assert_eq!(
        SdkCall::OpenCamera.failure_message(9),
        failure(SdkCall::OpenCamera, 9)
    );
}

#[test]
fn failure_messages_tell_codes_apart() {
    assert_ne!(failure(SdkCall::OpenCamera, 1), failure(SdkCall::OpenCamera, 11));
    assert_ne!(failure(SdkCall::OpenCamera, 1), failure(SdkCall::OpenCamera, -1));
}

#[test]
fn message_reads_the_text_of_an_error() {
    let error = AsiError::GenericError(String::from("Exposure failed"));
    assert_eq!(error.message(), "Exposure failed");
}
