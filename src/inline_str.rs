//! String literals short enough to be held inside an expression node, in a
//! fixed-capacity string of the `arraystring` crate.
use arraystring::error::OutOfBounds;
use arraystring::typenum::U30;
use arraystring::ArrayString;
use vstd::prelude::*;
use vstd::string::StringSliceAdditionalSpecFns;

verus! {

/// The error of `ArrayString::try_from_str`, carried through opaquely.
#[verifier::external_type_specification]
#[verifier::external_body]
pub struct ExOutOfBounds(OutOfBounds);

/// A string literal of at most `SMALL_STR_BYTES` bytes, held inline in a node.
/// The `ArrayString` stays hidden: its capacity bound is a trait that the
/// `arraystring` crate does not export, so the type cannot be declared to Verus.
#[verifier::external_body]
#[derive(Debug)]
pub struct SmallStr {
    inner: ArrayString<U30>,
}

/// Number of bytes a string literal may have and still be stored inline in a node.
pub const SMALL_STR_BYTES: usize = 30;

/// The bytes that an inline string holds.
pub uninterp spec fn inline_bytes(s: SmallStr) -> Seq<u8>;

/// Relies on `ArrayString::try_from_str`: an error exactly when the text is
/// longer than the capacity, and otherwise a copy of its bytes.
#[verifier::external_body]
fn try_inline(text: &str) -> (r: Result<SmallStr, OutOfBounds>)
    ensures
        text.spec_bytes().len() <= SMALL_STR_BYTES <==> r is Ok,
        r matches Ok(s) ==> inline_bytes(s) == text.spec_bytes(),
{
    ArrayString::<U30>::try_from_str(text).map(|inner| SmallStr { inner })
}

/// Relies on `ArrayString::as_bytes`: the bytes held, up to the current length.
#[verifier::external_body]
fn inline_as_bytes(s: &SmallStr) -> (r: &[u8])
    ensures
        r@ == inline_bytes(*s),
{
    s.inner.as_bytes()
}

impl SmallStr {
    /// The inline form of `text`, or `None` when it has more than `SMALL_STR_BYTES` bytes.
    pub fn from_str(text: &str) -> (r: Option<SmallStr>)
        ensures
            text.spec_bytes().len() <= SMALL_STR_BYTES <==> r is Some,
            r matches Some(s) ==> inline_bytes(s) == text.spec_bytes(),
    {
        match try_inline(text) {
            Ok(s) => Some(s),
            Err(_) => None,
        }
    }

    /// The bytes of the string.
    pub fn as_bytes(&self) -> (r: &[u8])
        ensures
            r@ == inline_bytes(*self),
    {
        inline_as_bytes(self)
    }
}

} // verus!
