use vstd::prelude::*;

verus! {

/// Envelope for every response body: a success flag, the HTTP status code
/// it travels with, and the payload.
#[derive(Clone, Debug)]
pub struct GenericResponse<T> {
    pub success: bool,
    pub status: u16,
    pub content: T,
}

impl<T> GenericResponse<T> {
    /// A successful response carrying `content`.
    pub fn ok_res(status: u16, content: T) -> (r: GenericResponse<T>)
        ensures
            r.success == true,
            r.status == status,
            r.content == content,
    {
        GenericResponse { success: true, status, content }
    }

    /// A failed response carrying the error payload.
    pub fn err_res(status: u16, err: T) -> (r: GenericResponse<T>)
        ensures
            r.success == false,
            r.status == status,
            r.content == err,
    {
        GenericResponse { success: false, status, content: err }
    }

    /// A failed response for a fatal error; always status 500.
    pub fn crit_res(content: T) -> (r: GenericResponse<T>)
        ensures
            r.success == false,
            r.status == 500,
            r.content == content,
    {
        GenericResponse { success: false, status: 500, content }
    }
}

} // verus!
