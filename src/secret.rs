//! A credential value that never shows up in textual output.
use vstd::prelude::*;

verus! {

/// The text that stands for a credential wherever a credential would be shown.
pub open spec fn redaction_marker() -> Seq<char> {
    seq!['x', 'x', 'x']
}

/// A password or token.
///
/// The only way to read the value is [`Secret::revealed`], meant for the point
/// where a credential is put on the wire. Its textual form is a fixed marker.
pub struct Secret(String);

impl View for Secret {
    type V = Seq<char>;

    closed spec fn view(&self) -> Seq<char> {
        self.0@
    }
}

impl Clone for Secret {
    /// A copy of the credential; its textual form stays the redaction marker.
    fn clone(&self) -> (r: Secret)
        ensures
            r@ == self@,
    {
        Secret(self.0.clone())
    }
}

impl Secret {
    /// Wrap a credential.
    pub fn new(value: &str) -> (r: Secret)
        ensures
            r@ == value@,
    {
        Secret(value.to_string())
    }

    /// The credential itself, for putting it on the wire.
    pub fn revealed(&self) -> (r: &str)
        ensures
            r@ == self@,
    {
        self.0.as_str()
    }

    /// The textual form of the credential: always the redaction marker.
    pub fn redacted(&self) -> (r: String)
        ensures
            r@ == redaction_marker(),
    {
        let r = String::from_str("xxx");
        proof {
            reveal_strlit("xxx");
        }
        r
    }
}

} // verus!
