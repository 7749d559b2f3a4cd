//! Minting of document ids.

use vstd::prelude::*;
use crate::document::DocumentId;

verus! {

/// Whether `c` is a digit or one of the letters `a` to `f`.
pub open spec fn is_lower_hex(c: char) -> bool {
    ('0' <= c && c <= '9') || ('a' <= c && c <= 'f')
}

/// The shape of a document id: 36 characters, hyphens after the 8th, 12th,
/// 16th and 20th hexadecimal digit, lower-case hexadecimal digits
/// everywhere else, and the digit 4 at the start of the third group.
pub open spec fn is_document_id(text: Seq<char>) -> bool {
    &&& text.len() == 36
    &&& forall|i: int|
        0 <= i < 36 ==> if i == 8 || i == 13 || i == 18 || i == 23 {
            #[trigger] text[i] == '-'
        } else {
            is_lower_hex(text[i])
        }
    &&& text[14] == '4'
}

/// Calls `uuid::Uuid::new_v4` and writes the result with `to_string`: a
/// random version-4 UUID in its hyphenated lower-case form. The contract
/// claims only that form, which every outcome has; which id comes out is
/// left open. The call panics if the operating system gives no random
/// bytes.
#[verifier::external_body]
pub(crate) fn random_document_id() -> (id: DocumentId)
    ensures
        is_document_id(id@),
{
    uuid::Uuid::new_v4().to_string()
}

} // verus!
