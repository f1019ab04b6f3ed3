//! Root synthesis: minting a unique, type-tagged identifier string from a
//! tag and a freshly generated 128-bit value.

use vstd::prelude::*;

verus! {

/// The tags the unique-id renderer accepts: at most 63 characters, all
/// lowercase ASCII letters or underscores, and neither starting nor ending
/// with an underscore.
pub open spec fn tag_ok(s: Seq<char>) -> bool {
    &&& s.len() <= 63
    &&& (forall|i: int| 0 <= i < s.len() ==> ('a' <= #[trigger] s[i] <= 'z' || s[i] == '_'))
    &&& (s.len() > 0 ==> s[0] != '_' && s[s.len() - 1] != '_')
}

/// The characters of the base-32 alphabet that renders the unique value:
/// digits and lowercase letters except 'i', 'l', 'o' and 'u'.
pub open spec fn base32_char(c: char) -> bool {
    ('0' <= c <= '9') || ('a' <= c <= 'z' && c != 'i' && c != 'l' && c != 'o' && c != 'u')
}

/// What every synthesized root string looks like: the tag, one underscore,
/// then exactly 26 characters of the base-32 alphabet.
pub open spec fn synthesized_from(tag: Seq<char>, s: Seq<char>) -> bool {
    &&& s.len() == tag.len() + 27
    &&& s.subrange(0, tag.len() as int) == tag
    &&& s[tag.len() as int] == '_'
    &&& (forall|i: int| tag.len() + 1 <= i < s.len() ==> base32_char(#[trigger] s[i]))
}

/// The tag a root synthesis uses: the caller's raw value, or the fixed
/// default tag when the raw value is empty.
pub open spec fn root_tag(raw: Seq<char>) -> Seq<char> {
    if raw.len() == 0 {
        "acton"@
    } else {
        raw
    }
}

/// A synthesized root never holds a segment or hierarchy separator and is
/// never empty: its tag holds only lowercase letters and underscores, and
/// its suffix only base-32 characters.
pub proof fn lemma_synthesized_text_plain(tag: Seq<char>, s: Seq<char>)
    requires
        tag_ok(tag),
        synthesized_from(tag, s),
    ensures
        s.len() > 0,
        forall|j: int| 0 <= j < s.len() ==> s[j] != ':',
        forall|j: int| 0 <= j < s.len() ==> s[j] != '/',
{
    assert forall|j: int| 0 <= j < s.len() implies s[j] != ':' && s[j] != '/' by {
        if j < tag.len() {
            assert(s[j] == s.subrange(0, tag.len() as int)[j]);
            assert(s[j] == tag[j]);
        } else if j == tag.len() {
            assert(s[j] == '_');
        } else {
            assert(base32_char(s[j]));
        }
    }
}

/// Selects a strategy for minting fresh 128-bit values. The marker carries
/// no data; it only picks the generator at compile time.
pub trait IdType {
    fn generate_id(tag: &str) -> u128;
}

/// Marker for time-ordered values: ids minted later compare greater.
#[derive(Debug, Clone, Copy, PartialEq, Eq, PartialOrd, Ord, Hash, Default)]
pub struct UnixTime;

/// Marker for opaque random values with no ordering guarantee.
#[derive(Debug, Clone, Copy, PartialEq, Eq, PartialOrd, Ord, Hash, Default)]
pub struct Timestamp;

/// Relies on uuid::Uuid::now_v7: a version-7 uuid led by the current
/// unix-epoch millisecond. Nothing is assumed of the value.
#[verifier::external_body]
fn mint_time_ordered() -> u128 {
    uuid::Uuid::now_v7().as_u128()
}

/// Relies on uuid::Uuid::new_v4: a random version-4 uuid. Nothing is
/// assumed of the value.
#[verifier::external_body]
fn mint_random() -> u128 {
    uuid::Uuid::new_v4().as_u128()
}

impl IdType for UnixTime {
    fn generate_id(_tag: &str) -> u128 {
        mint_time_ordered()
    }
}

impl IdType for Timestamp {
    fn generate_id(_tag: &str) -> u128 {
        mint_random()
    }
}

/// Relies on type_safe_id::DynamicType::new, which accepts exactly the tags
/// described by `tag_ok`, and on the Display rendering of
/// type_safe_id::TypeSafeId::from_type_and_uuid: for a non-empty tag the
/// rendered id is the tag, an underscore, and the 26-character base-32
/// encoding of the 128-bit value.
#[verifier::external_body]
pub(crate) fn tagged_id_string(tag: &str, id: u128) -> (r: Result<String, String>)
    requires
        tag@.len() > 0,
    ensures
        r is Ok <==> tag_ok(tag@),
        r matches Ok(s) ==> synthesized_from(tag@, s@),
{
    match type_safe_id::DynamicType::new(tag) {
        Ok(t) => {
            let id = type_safe_id::TypeSafeId::from_type_and_uuid(t, uuid::Uuid::from_u128(id));
            Ok(id.to_string())
        },
        Err(e) => Err(e.to_string()),
    }
}

} // verus!
