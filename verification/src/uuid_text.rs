//! UUID text: which strings the `uuid` crate accepts as a UUID, and the
//! name-based (version 5) identifiers that personas are given.

use vstd::prelude::*;
use uuid::Uuid;

verus! {

/// An ASCII hexadecimal digit, either case.
pub open spec fn is_hex_digit(c: char) -> bool {
    ('0' <= c && c <= '9') || ('a' <= c && c <= 'f') || ('A' <= c && c <= 'F')
}

/// A lowercase ASCII hexadecimal digit.
pub open spec fn is_lower_hex_digit(c: char) -> bool {
    ('0' <= c && c <= '9') || ('a' <= c && c <= 'f')
}

/// Positions of the four hyphens in the hyphenated form.
pub open spec fn is_hyphen_position(i: int) -> bool {
    i == 8 || i == 13 || i == 18 || i == 23
}

/// 32 hexadecimal digits, no separators.
pub open spec fn is_simple_uuid(s: Seq<char>) -> bool {
    s.len() == 32 && forall|i: int| 0 <= i < 32 ==> is_hex_digit(#[trigger] s[i])
}

/// `xxxxxxxx-xxxx-xxxx-xxxx-xxxxxxxxxxxx` with hexadecimal digits of either case.
pub open spec fn is_hyphenated_uuid(s: Seq<char>) -> bool {
    &&& s.len() == 36
    &&& forall|i: int|
        0 <= i < 36 ==> if is_hyphen_position(i) {
            #[trigger] s[i] == '-'
        } else {
            is_hex_digit(s[i])
        }
}

/// The hyphenated form with lowercase digits: how a UUID is displayed.
pub open spec fn is_canonical_uuid(s: Seq<char>) -> bool {
    &&& s.len() == 36
    &&& forall|i: int|
        0 <= i < 36 ==> if is_hyphen_position(i) {
            #[trigger] s[i] == '-'
        } else {
            is_lower_hex_digit(s[i])
        }
}

/// ASCII case-insensitive equality of one character with a lowercase letter or symbol.
pub open spec fn eq_ignore_ascii_case(c: char, lower: char) -> bool {
    c == lower || ('a' <= lower && lower <= 'z' && c as u32 + 32 == lower as u32)
}

/// The `urn:uuid:` prefix, in any ASCII case.
pub open spec fn has_urn_prefix(s: Seq<char>) -> bool {
    let p = seq!['u', 'r', 'n', ':', 'u', 'u', 'i', 'd', ':'];
    s.len() >= 9 && forall|i: int| 0 <= i < 9 ==> eq_ignore_ascii_case(#[trigger] s[i], p[i])
}

/// The strings `Uuid::parse_str` accepts: simple, hyphenated, braced
/// (`{hyphenated}`) and URN (`urn:uuid:hyphenated`) forms.
pub open spec fn is_uuid_text(s: Seq<char>) -> bool {
    ||| is_simple_uuid(s)
    ||| is_hyphenated_uuid(s)
    ||| (s.len() == 38 && s[0] == '{' && s[37] == '}' && is_hyphenated_uuid(s.subrange(1, 37)))
    ||| (s.len() == 45 && has_urn_prefix(s) && is_hyphenated_uuid(s.subrange(9, 45)))
}

/// The displayed version 5 UUID, in the OID namespace, of a name's UTF-8 bytes.
pub uninterp spec fn uuid_v5_oid_text(name: Seq<char>) -> Seq<char>;

/// Whether `uuid::Uuid::parse_str` accepts `text`.
///
/// Claimed: it accepts exactly the four textual forms of `is_uuid_text`. The
/// parser works on the UTF-8 bytes; a string holding a non-ASCII character
/// has a byte that is neither a hexadecimal digit, a hyphen, a brace nor a
/// letter of the URN prefix, so it is refused, as the statement over
/// characters says.
#[verifier::external_body]
fn parse_uuid_ok(text: &str) -> (r: bool)
    ensures
        r == is_uuid_text(text@),
{
    Uuid::parse_str(text).is_ok()
}

/// `Uuid::new_v5(&Uuid::NAMESPACE_OID, name.as_bytes()).to_string()`.
///
/// Claimed: the result is a function of the name alone (named
/// `uuid_v5_oid_text`; SHA-1 is not restated), and it is displayed in the
/// lowercase hyphenated form, as the crate's `Display` does.
#[verifier::external_body]
fn uuid_v5_from_name(name: &str) -> (r: String)
    ensures
        r@ == uuid_v5_oid_text(name@),
        is_canonical_uuid(r@),
{
    Uuid::new_v5(&Uuid::NAMESPACE_OID, name.as_bytes()).to_string()
}

/// The displayed form of a UUID is accepted by the parser.
pub proof fn lemma_canonical_is_uuid(s: Seq<char>)
    requires
        is_canonical_uuid(s),
    ensures
        is_uuid_text(s),
{
    assert forall|i: int| 0 <= i < 36 implies (if is_hyphen_position(i) {
        #[trigger] s[i] == '-'
    } else {
        is_hex_digit(s[i])
    }) by {
        if !is_hyphen_position(i) {
            assert(is_lower_hex_digit(s[i]));
        }
    }
    assert(is_hyphenated_uuid(s));
}

/// Whether `text` is a UUID in any of the forms the `uuid` crate parses.
pub fn is_valid_uuid(text: &str) -> (r: bool)
    ensures
        r == is_uuid_text(text@),
{
    parse_uuid_ok(text)
}

/// Generates a deterministic UUID from a persona name: the version 5 UUID of
/// the name in the OID namespace, in its displayed form.
pub fn generate_uuid_from_name(name: &str) -> (r: String)
    ensures
        r@ == uuid_v5_oid_text(name@),
        is_canonical_uuid(r@),
        is_uuid_text(r@),
{
    let r = uuid_v5_from_name(name);
    proof {
        lemma_canonical_is_uuid(r@);
    }
    r
}

/// The identifier a record keeps: its own when that parses as a UUID,
/// else the name-based UUID of its name.
pub open spec fn spec_uuid_or_from_name(id: Seq<char>, name: Seq<char>) -> Seq<char> {
    if is_uuid_text(id) {
        id
    } else {
        uuid_v5_oid_text(name)
    }
}

/// Keeps `id` when it is already a UUID; otherwise derives one from `name`.
pub fn uuid_or_from_name(id: String, name: &str) -> (r: String)
    ensures
        r@ == spec_uuid_or_from_name(id@, name@),
        is_uuid_text(r@),
{
    if is_valid_uuid(id.as_str()) {
        id
    } else {
        generate_uuid_from_name(name)
    }
}

} // verus!
