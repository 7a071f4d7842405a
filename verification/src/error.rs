use vstd::prelude::*;
use vstd::std_specs::cmp::PartialEqSpec;

verus! {

/// Errors returned while opening or rasterizing a document.
///
/// The error carries a human-readable message; its view is that message.
#[derive(Debug, Eq)]
pub struct DocumentError(String);

impl PartialEq for DocumentError {
    fn eq(&self, other: &Self) -> (equal: bool) {
        self.0 == other.0
    }
}

impl vstd::std_specs::cmp::PartialEqSpecImpl for DocumentError {
    open spec fn obeys_eq_spec() -> bool {
        true
    }

    /// Two errors are equal exactly when their messages are.
    open spec fn eq_spec(&self, other: &Self) -> bool {
        self@ == other@
    }
}

impl Clone for DocumentError {
    fn clone(&self) -> (copy: Self)
        ensures
            copy@ == self@,
    {
        DocumentError(self.0.clone())
    }
}

impl View for DocumentError {
    type V = Seq<char>;

    closed spec fn view(&self) -> Seq<char> {
        self.0@
    }
}

/// Two errors are equal exactly when their messages are.
pub proof fn lemma_errors_equal_by_message(a: DocumentError, b: DocumentError)
    ensures
        a.eq_spec(&b) <==> a@ == b@,
{
}

impl DocumentError {
    /// Build an error from its message.
    pub fn new(message: String) -> (error: DocumentError)
        ensures
            error@ == message@,
    {
        DocumentError(message)
    }

    /// Build an error from a message literal.
    pub fn from_text(message: &str) -> (error: DocumentError)
        ensures
            error@ == message@,
    {
        DocumentError(String::from_str(message))
    }

    /// Build an error whose message is `prefix` followed by `detail`.
    pub fn with_detail(prefix: &str, detail: &str) -> (error: DocumentError)
        ensures
            error@ == prefix@ + detail@,
    {
        let mut message = String::from_str(prefix);
        message.append(detail);
        DocumentError(message)
    }

    /// Return the message, as the error is displayed.
    pub fn message(&self) -> (text: &str)
        ensures
            text@ == self@,
    {
        self.0.as_str()
    }
}

} // verus!
