use vstd::prelude::*;

verus! {

/// The text that lossy UTF-8 decoding makes of some bytes.
pub uninterp spec fn utf8_lossy(bytes: Seq<u8>) -> Seq<char>;

/// Relies on `String::from_utf8_lossy`: the text is a function of the bytes alone, and no
/// bytes make no text.
#[verifier::external_body]
fn lossy_text(bytes: &[u8]) -> (r: String)
    ensures
        r@ == utf8_lossy(bytes@),
        bytes@.len() == 0 ==> r@.len() == 0,
{
    String::from_utf8_lossy(bytes).into_owned()
}

/// Bytes meant for display, such as a name the system reports, that need not be UTF-8.
#[derive(Debug, Clone)]
pub struct DisplayBytes(pub Vec<u8>);

impl DisplayBytes {
    pub fn new(bytes: &[u8]) -> (r: Self)
        ensures
            r.0@ == bytes@,
    {
        let mut v: Vec<u8> = Vec::new();
        v.extend_from_slice(bytes);
        DisplayBytes(v)
    }

    /// The bytes as text; each run that is not UTF-8 shows as U+FFFD.
    pub fn to_string(&self) -> (r: String)
        ensures
            r@ == utf8_lossy(self.0@),
    {
        lossy_text(self.0.as_slice())
    }

    pub fn as_bytes(&self) -> (r: &[u8])
        ensures
            r@ == self.0@,
    {
        self.0.as_slice()
    }
}

} // verus!
