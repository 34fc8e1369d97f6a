//! Identifiers of sessions and commands.

use vstd::prelude::*;

verus! {

/// Whether `c` is one of `0`-`9`, `a`-`f`.
pub open spec fn is_lower_hex(c: char) -> bool {
    ('0' <= c && c <= '9') || ('a' <= c && c <= 'f')
}

/// Whether `position` holds a hyphen in the hyphenated form of a UUID.
pub open spec fn is_hyphen_position(position: int) -> bool {
    position == 8 || position == 13 || position == 18 || position == 23
}

/// Whether `text` is the lower-case hyphenated form of a version 4 UUID:
/// 36 characters, hyphens after the groups of 8, 4, 4 and 4 hexadecimal
/// digits, the version digit `4` and a variant digit among `8`, `9`, `a`, `b`.
pub open spec fn is_uuid_v4_text(text: Seq<char>) -> bool {
    &&& text.len() == 36
    &&& forall|i: int|
        0 <= i < 36 ==> if is_hyphen_position(i) {
            #[trigger] text[i] == '-'
        } else {
            is_lower_hex(text[i])
        }
    &&& text[14] == '4'
    &&& (text[19] == '8' || text[19] == '9' || text[19] == 'a' || text[19] == 'b')
}

/// Whether none of `ids` has the shape of a drawn identifier, so that no draw
/// can collide with any of them.
pub open spec fn none_can_be_drawn(ids: Seq<Seq<char>>) -> bool {
    forall|i: int| 0 <= i < ids.len() ==> !is_uuid_v4_text(#[trigger] ids[i])
}

/// Draws a random identifier.
///
/// Trusted: calls `uuid::Uuid::new_v4` and renders the result through its
/// `Display` impl. The contract claims only the shape of the text, which is
/// the same for every draw: the lower-case hyphenated form, with the version
/// and variant digits that `new_v4` sets. Nothing is claimed of which
/// identifier comes back, nor that two draws differ. The call aborts where the
/// operating system offers no randomness.
#[verifier::external_body]
pub(crate) fn random_id() -> (id: String)
    ensures
        is_uuid_v4_text(id@),
{
    uuid::Uuid::new_v4().to_string()
}

} // verus!
