use vstd::prelude::*;

verus! {

/// What decoding `units` as UTF-16 gives: the text, or the error that tells
/// of a surrogate without its partner.
pub uninterp spec fn utf16_decoding(units: Seq<u16>) -> Result<
    Seq<char>,
    std::string::FromUtf16Error,
>;

/// Calls `String::from_utf16`, which decodes native-endian UTF-16 and fails
/// if the input holds any invalid data. The result depends on `units` alone:
/// the contract gives it its name and claims no more.
#[verifier::external_body]
pub(crate) fn string_from_utf16(
    units: &[u16],
) -> (decoded: Result<String, std::string::FromUtf16Error>)
    ensures
        match decoded {
            Ok(text) => utf16_decoding(units@) == Ok::<Seq<char>, std::string::FromUtf16Error>(
                text@,
            ),
            Err(error) => utf16_decoding(units@) == Err::<Seq<char>, std::string::FromUtf16Error>(
                error,
            ),
        },
{
    String::from_utf16(units)
}

} // verus!
