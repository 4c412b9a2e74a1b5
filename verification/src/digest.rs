//! The content hash by which duplicates are found.

use vstd::prelude::*;

verus! {

/// The MD5 digest of a text's UTF-8 bytes, as 32 lower-case hex digits.
pub uninterp spec fn md5_hex(text: Seq<char>) -> Seq<char>;

/// `md5::compute` on the text's bytes, printed in lower-case hex. Claims only
/// that the digest is a function of the text.
#[verifier::external_body]
pub(crate) fn content_hash(text: &str) -> (digest: String)
    ensures
        digest@ == md5_hex(text@),
{
    format!("{:x}", md5::compute(text))
}

} // verus!
