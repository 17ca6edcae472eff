//! Marshaling of native text buffers.
//!
//! The engine hands text out as transient native buffers.  The shim that
//! performs the native call copies the buffer's bytes byte-exactly — the
//! buffer's reported length decides how much is copied, never a terminator —
//! releases the native buffer unconditionally, and only then asks this module
//! to decode the copy.  A buffer whose bytes are not valid UTF-8 is reported
//! as undecodable rather than crashing, and by then its native side is
//! already gone, so the failure leaks nothing.

use vstd::prelude::*;
use vstd::utf8::decode_utf8;
use vstd::utf8::valid_utf8;

verus! {

/// Relies on `String::from_utf8`: returns the string whose characters are
/// the UTF-8 decoding of the bytes exactly when the bytes are valid UTF-8,
/// and nothing otherwise.
#[verifier::external_body]
fn string_from_utf8(bytes: &Vec<u8>) -> (r: Option<String>)
    ensures
        r matches Some(s) ==> valid_utf8(bytes@) && s@ == decode_utf8(bytes@),
        r is None ==> !valid_utf8(bytes@),
{
    String::from_utf8(bytes.clone()).ok()
}

/// The owned copy of one native text buffer, kept as the exact bytes that
/// the buffer held.
pub struct KeyviString {
    bytes: Vec<u8>,
}

impl View for KeyviString {
    type V = Seq<u8>;

    closed spec fn view(&self) -> Seq<u8> {
        self.bytes@
    }
}

impl KeyviString {
    /// Wraps the bytes copied out of a native buffer.
    pub fn new(bytes: Vec<u8>) -> (s: KeyviString)
        ensures
            s@ == bytes@,
    {
        KeyviString { bytes }
    }

    pub fn len(&self) -> (n: usize)
        ensures
            n == self@.len(),
    {
        self.bytes.len()
    }

    /// Decodes the copied bytes into an owned string: the decoding succeeds
    /// exactly when the bytes are valid UTF-8, and then returns their exact
    /// decoding.
    pub fn to_owned(&self) -> (r: Option<String>)
        ensures
            r matches Some(s) ==> valid_utf8(self@) && s@ == decode_utf8(self@),
            r is None ==> !valid_utf8(self@),
    {
        string_from_utf8(&self.bytes)
    }
}

} // verus!
