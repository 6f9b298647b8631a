//! Volume identifiers and the local directory of a volume.

use vstd::prelude::*;

verus! {

/// Prefix of every volume identifier.
pub const VOLUME_ID_PREFIX: &'static str = "nlc-";

/// Namespace of the name-based UUIDs that identify volumes.
pub const VOLUME_ID_NAMESPACE: [u8; 16] = [
    0x7a, 0x3e, 0x8f, 0x2b, 0x5c, 0x41, 0x4d, 0x9a, 0xb8, 0x6f, 0x1e, 0x4a, 0x9c, 0x2d, 0x7b, 0x5e,
];

/// The hyphenated text of the version-5 UUID of `name` in `namespace`.
pub uninterp spec fn uuid_v5_text(namespace: Seq<u8>, name: Seq<char>) -> Seq<char>;

/// Whether `s` parses as a UUID in one of the accepted text forms.
pub uninterp spec fn is_uuid_text(s: Seq<char>) -> bool;

/// Relies on uuid's `Uuid::new_v5` (a SHA-1 name-based UUID of the name's
/// bytes) and its hyphenated form, which is 36 characters long and which
/// `Uuid::parse_str` accepts.
#[verifier::external_body]
fn uuid_v5_hyphenated(namespace: &[u8; 16], name: &str) -> (r: String)
    ensures
        r@ == uuid_v5_text(namespace@, name@),
        r@.len() == 36,
        is_uuid_text(r@),
{
    uuid::Uuid::new_v5(&uuid::Uuid::from_bytes(*namespace), name.as_bytes()).hyphenated().to_string()
}

/// Relies on uuid's `Uuid::parse_str`: whether the text parses as a UUID.
#[verifier::external_body]
fn parses_as_uuid(s: &str) -> (r: bool)
    ensures
        r == is_uuid_text(s@),
{
    uuid::Uuid::parse_str(s).is_ok()
}

/// Whether `s` begins with `p`.
pub open spec fn has_prefix(s: Seq<char>, p: Seq<char>) -> bool {
    p.len() <= s.len() && s.take(p.len() as int) == p
}

/// The identifier of the volume named `name`: the prefix followed by the
/// name's version-5 UUID.
pub open spec fn volume_id_of(name: Seq<char>) -> Seq<char> {
    VOLUME_ID_PREFIX@ + uuid_v5_text(VOLUME_ID_NAMESPACE@, name)
}

/// A well-formed volume identifier: the prefix followed by a UUID.
pub open spec fn is_volume_id(id: Seq<char>) -> bool {
    has_prefix(id, VOLUME_ID_PREFIX@) && is_uuid_text(id.skip(VOLUME_ID_PREFIX@.len() as int))
}

/// `part` joined onto `base` as a path: an absolute `part` replaces `base`,
/// and a separator goes between them unless `base` is empty or ends in one.
pub open spec fn joined_path(base: Seq<char>, part: Seq<char>) -> Seq<char> {
    if part.len() > 0 && part[0] == '/' {
        part
    } else if base.len() == 0 || base.last() == '/' {
        base + part
    } else {
        base + seq!['/'] + part
    }
}

/// The deterministic identifier of the volume named `name`; it is always
/// a well-formed volume identifier.
pub fn generate_volume_id(name: &str) -> (r: String)
    ensures
        r@ == volume_id_of(name@),
        is_volume_id(r@),
        r@.len() == VOLUME_ID_PREFIX@.len() + 36,
{
    let uuid = uuid_v5_hyphenated(&VOLUME_ID_NAMESPACE, name);
    let prefix = String::from_str(VOLUME_ID_PREFIX);
    let r = prefix.concat(uuid.as_str());
    assert(r@.take(VOLUME_ID_PREFIX@.len() as int) =~= VOLUME_ID_PREFIX@);
    assert(r@.skip(VOLUME_ID_PREFIX@.len() as int) =~= uuid@);
    r
}

/// Whether `s` begins with `p`.
pub fn starts_with(s: &str, p: &str) -> (r: bool)
    ensures
        r == has_prefix(s@, p@),
{
    let n = s.unicode_len();
    let m = p.unicode_len();
    if m > n {
        return false;
    }
    let mut i: usize = 0;
    while i < m
        invariant
            m <= n,
            n == s@.len(),
            m == p@.len(),
            i <= m,
            forall|j: int| 0 <= j < i ==> s@[j] == p@[j],
        decreases m - i,
    {
        if s.get_char(i) != p.get_char(i) {
            assert(s@.take(m as int)[i as int] != p@[i as int]);
            return false;
        }
        i += 1;
    }
    assert(s@.take(m as int) =~= p@);
    true
}

/// Whether `id` is the prefix followed by a UUID.
pub fn validate_volume_id(id: &str) -> (r: bool)
    ensures
        r == is_volume_id(id@),
{
    if !starts_with(id, VOLUME_ID_PREFIX) {
        return false;
    }
    let rest = id.substring_char(VOLUME_ID_PREFIX.unicode_len(), id.unicode_len());
    assert(rest@ =~= id@.skip(VOLUME_ID_PREFIX@.len() as int));
    parses_as_uuid(rest)
}

/// `part` joined onto `base` as a path.
pub fn join_path(base: &str, part: &str) -> (r: String)
    ensures
        r@ == joined_path(base@, part@),
{
    let nb = base.unicode_len();
    let np = part.unicode_len();
    if np > 0 && part.get_char(0) == '/' {
        return part.to_owned();
    }
    let mut r = base.to_owned();
    if !(nb == 0 || base.get_char(nb - 1) == '/') {
        r.append("/");
        proof {
            reveal_strlit("/");
        }
        assert(r@ =~= base@ + seq!['/']);
    }
    r.append(part);
    r
}

/// The local directory of volume `volume_id` under `base`.
pub fn volume_path(base: &str, volume_id: &str) -> (r: String)
    ensures
        r@ == joined_path(base@, volume_id@),
{
    join_path(base, volume_id)
}

} // verus!
