use vstd::prelude::*;

verus! {

/// The uniform envelope around every response body.
pub struct ApiResponse<T> {
    /// `"success"` or `"error"`.
    pub status: String,
    pub message: Option<String>,
    pub data: Option<T>,
}

impl<T> ApiResponse<T> {
    /// A successful response carrying `data`.
    pub fn success(data: T) -> (r: Self)
        ensures
            r.status@ == "success"@,
            r.message.is_none(),
            r.data == Some(data),
    {
        ApiResponse { status: String::from_str("success"), message: None, data: Some(data) }
    }

    /// A successful response carrying `data` and a message.
    pub fn with_message(data: T, message: &str) -> (r: Self)
        ensures
            r.status@ == "success"@,
            r.message matches Some(m) && m@ == message@,
            r.data == Some(data),
    {
        ApiResponse {
            status: String::from_str("success"),
            message: Some(message.to_string()),
            data: Some(data),
        }
    }

    /// A failed response: a message and no data.
    pub fn error(message: &str) -> (r: Self)
        ensures
            r.status@ == "error"@,
            r.message matches Some(m) && m@ == message@,
            r.data.is_none(),
    {
        ApiResponse { status: String::from_str("error"), message: Some(message.to_string()), data: None }
    }
}

} // verus!
