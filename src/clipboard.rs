use base64::Engine;
use vstd::prelude::*;

verus! {

/// The standard base64 text (standard alphabet, `=` padding) of some bytes.
pub uninterp spec fn base64_of(bytes: Seq<u8>) -> Seq<char>;

/// Length of the padded base64 text of `n` bytes: four characters for each
/// started group of three bytes.
pub open spec fn base64_len(n: nat) -> nat {
    4 * ((n + 2) / 3)
}

/// Relies on base64's `Engine::encode` with the `STANDARD` engine: padded
/// standard-alphabet text, four characters per started group of three bytes.
/// It panics where that length does not fit in a `usize`.
#[verifier::external_body]
fn encode_base64(bytes: &Vec<u8>) -> (r: String)
    requires
        base64_len(bytes@.len()) <= usize::MAX,
    ensures
        r@ == base64_of(bytes@),
        r@.len() == base64_len(bytes@.len()),
{
    base64::engine::general_purpose::STANDARD.encode(bytes)
}

/// A JPEG image held in memory, ready to be sent as a request field.
pub struct JpegInMemory(Vec<u8>);

impl View for JpegInMemory {
    type V = Seq<u8>;

    closed spec fn view(&self) -> Seq<u8> {
        self.0@
    }
}

impl JpegInMemory {
    pub fn new(bytes: Vec<u8>) -> (r: Self)
        ensures
            r@ == bytes@,
    {
        JpegInMemory(bytes)
    }

    pub fn len(&self) -> (r: usize)
        ensures
            r == self@.len(),
    {
        self.0.len()
    }

    /// The image as the base64 text that the OCR request carries.
    pub fn base64(&self) -> (r: String)
        requires
            base64_len(self@.len()) <= usize::MAX,
        ensures
            r@ == base64_of(self@),
            r@.len() == base64_len(self@.len()),
    {
        encode_base64(&self.0)
    }
}

} // verus!
