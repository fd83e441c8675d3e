//! The error type of the binding, and the messages of failed SDK calls.

use crate::text::{decimal, lemma_decimal_injective, spec_decimal};
use vstd::prelude::*;
use vstd::string::StringExecFns;

verus! {

/// An error of the binding. It carries the message that describes it.
#[derive(Debug)]
pub enum AsiError {
    GenericError(String),
}

impl View for AsiError {
    type V = Seq<char>;

    /// The message of the error.
    open spec fn view(&self) -> Seq<char> {
        match self {
            AsiError::GenericError(message) => message@,
        }
    }
}

impl AsiError {
    /// The message of the error.
    pub fn message(&self) -> (text: &str)
        ensures
            text@ == self@,
    {
        match self {
            AsiError::GenericError(message) => message.as_str(),
        }
    }
}

/// The SDK calls whose return code the binding looks at.
#[derive(Debug, Clone, Copy, PartialEq, Eq, Structural)]
pub enum SdkCall {
    GetCameraProperty,
    OpenCamera,
    InitCamera,
    CloseCamera,
    StopVideoCapture,
    StartExposure,
    GetExpStatus,
    GetDataAfterExp,
}

impl SdkCall {
    /// How the message of a failure of this call begins. The return code
    /// follows it.
    pub open spec fn failure_prefix(self) -> Seq<char> {
        match self {
            SdkCall::GetCameraProperty => "Could not get camera properties, return code: "@,
            SdkCall::OpenCamera => "Could not open camera, return code: "@,
            SdkCall::InitCamera => "Could not initialize camera, return code: "@,
            SdkCall::CloseCamera => "Could not close camera, return code: "@,
            SdkCall::StopVideoCapture => "Could not stop video mode, return code: "@,
            SdkCall::StartExposure => "Could not start exposure, return code: "@,
            SdkCall::GetExpStatus => "Failed to get exposure status, return code: "@,
            SdkCall::GetDataAfterExp => "Could not get exposure data, return code: "@,
        }
    }

    /// The message of a failure of this call with return code `code`.
    pub open spec fn failure_text(self, code: int) -> Seq<char> {
        self.failure_prefix() + spec_decimal(code)
    }

    fn failure_prefix_str(self) -> (s: &'static str)
        ensures
            s@ == self.failure_prefix(),
    {
        match self {
            SdkCall::GetCameraProperty => "Could not get camera properties, return code: ",
            SdkCall::OpenCamera => "Could not open camera, return code: ",
            SdkCall::InitCamera => "Could not initialize camera, return code: ",
            SdkCall::CloseCamera => "Could not close camera, return code: ",
            SdkCall::StopVideoCapture => "Could not stop video mode, return code: ",
            SdkCall::StartExposure => "Could not start exposure, return code: ",
            SdkCall::GetExpStatus => "Failed to get exposure status, return code: ",
            SdkCall::GetDataAfterExp => "Could not get exposure data, return code: ",
        }
    }

    /// The message of a failure of this call with return code `code`.
    pub fn failure_message(self, code: i32) -> (message: String)
        ensures
            message@ == self.failure_text(code as int),
    {
        let number: String = decimal(code);
        String::from_str(self.failure_prefix_str()).concat(number.as_str())
    }
}

/// The message of a failed call tells its return code: two codes that give
/// one message are one code.
pub proof fn lemma_failure_text_tells_code(call: SdkCall, a: int, b: int)
    requires
        call.failure_text(a) == call.failure_text(b),
    ensures
        a == b,
{
    let prefix = call.failure_prefix();
    let text_a = call.failure_text(a);
    let text_b = call.failure_text(b);
    assert(text_a.subrange(prefix.len() as int, text_a.len() as int) == spec_decimal(a));
    assert(text_b.subrange(prefix.len() as int, text_b.len() as int) == spec_decimal(b));
    lemma_decimal_injective(a, b);
}

/// Judges the return code of an SDK call: zero is success, anything else is
/// a failure described by the call's message and the code.
pub fn check_return_code(call: SdkCall, code: i32) -> (r: Result<(), AsiError>)
    ensures
        r is Ok <==> code == 0,
        r matches Err(e) ==> e@ == call.failure_text(code as int),
{
    if code == 0 {
        Ok(())
    } else {
        Err(AsiError::GenericError(call.failure_message(code)))
    }
}

} // verus!
