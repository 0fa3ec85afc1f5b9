use vstd::prelude::*;

use ascii::AsciiString;
use bstr::BString;

verus! {

/// An ASCII string of the `ascii` crate, carried through messages as an opaque value.
#[verifier::external_type_specification]
#[verifier::external_body]
pub struct ExAsciiString(ascii::AsciiString);

/// A byte string of the `bstr` crate, carried through messages as an opaque value.
#[verifier::external_type_specification]
#[verifier::external_body]
pub struct ExBString(bstr::BString);

/// The bytes that an [`AsciiString`] holds, in order.
pub uninterp spec fn ascii_bytes(s: AsciiString) -> Seq<u8>;

/// The bytes that a [`BString`] holds, in order.
pub uninterp spec fn bstring_bytes(s: BString) -> Seq<u8>;

/// The characters that `String::from_utf8_lossy` decodes from `bytes`, invalid sequences
/// replaced by U+FFFD.
pub uninterp spec fn utf8_lossy(bytes: Seq<u8>) -> Seq<char>;

/// `AsciiString`'s derived `Clone`: a copy of its `Vec<AsciiChar>`, so the same bytes.
pub assume_specification[ <ascii::AsciiString as std::clone::Clone>::clone ](
    s: &ascii::AsciiString,
) -> (r: ascii::AsciiString)
    ensures
        ascii_bytes(r) == ascii_bytes(*s),
;

/// `BString`'s derived `Clone`: a copy of its `Vec<u8>`, so the same bytes.
pub assume_specification[ <bstr::BString as std::clone::Clone>::clone ](s: &bstr::BString) -> (r:
    bstr::BString)
    ensures
        bstring_bytes(r) == bstring_bytes(*s),
;

/// Calls `AsciiStr::as_bytes` (through `AsciiString`'s `Deref`): the string's bytes. Every
/// `AsciiChar` is a `repr(u8)` value of at most 127, so each byte is below 128.
#[verifier::external_body]
pub(crate) fn ascii_as_bytes(s: &AsciiString) -> (r: &[u8])
    ensures
        r@ == ascii_bytes(*s),
        forall|i: int| 0 <= i < r@.len() ==> r@[i] < 128,
{
    s.as_bytes()
}

/// Calls `Vec::as_slice` on the `Vec<u8>` that a `BString` dereferences to: its bytes.
#[verifier::external_body]
pub(crate) fn bstring_as_bytes(s: &BString) -> (r: &[u8])
    ensures
        r@ == bstring_bytes(*s),
{
    s.as_slice()
}

/// Calls `String::from_utf8_lossy` and takes ownership of the result. Valid UTF-8 decodes to
/// exactly the characters it encodes; otherwise the result is only named.
#[verifier::external_body]
pub(crate) fn string_from_utf8_lossy(bytes: &[u8]) -> (r: String)
    ensures
        r@ == utf8_lossy(bytes@),
        vstd::utf8::valid_utf8(bytes@) ==> r@ == vstd::utf8::decode_utf8(bytes@),
{
    String::from_utf8_lossy(bytes).into_owned()
}

} // verus!
