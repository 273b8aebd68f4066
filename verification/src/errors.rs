use vstd::prelude::*;

verus! {

/// The single error kind of the library: every failure in the request
/// pipeline carries a human-readable message and nothing else.
#[derive(Debug, Clone)]
pub struct ILertError {
    message: String,
}

impl View for ILertError {
    type V = Seq<char>;

    closed spec fn view(&self) -> Seq<char> {
        self.message@
    }
}

impl ILertError {
    pub fn new(message: &str) -> (r: ILertError)
        ensures
            r@ == message@,
    {
        ILertError { message: message.to_owned() }
    }

    /// The message carried by this error.
    pub fn message(&self) -> (r: &String)
        ensures
            r@ == self@,
    {
        &self.message
    }
}

pub type ILertResult<T> = Result<T, ILertError>;

} // verus!
