//! Upload service logic: filename sanitization and storage key generation.
//!
//! A storage key is `"{prefix}/{unique}_{sanitized_filename}"`, where the
//! unique component comes from a freshly generated random identifier and the
//! filename is sanitized so that attacker-controlled names cannot carry path
//! separators or other unsafe characters into the key.

use vstd::prelude::*;
use vstd::string::*;

use crate::text::{push_char, str_eq};

verus! {

/// Characters that sanitization passes through unchanged: ASCII letters,
/// digits, `.`, `-` and `_`.
pub open spec fn is_safe_filename_char(c: char) -> bool {
    ||| ('a' as u32) <= (c as u32) && (c as u32) <= ('z' as u32)
    ||| ('A' as u32) <= (c as u32) && (c as u32) <= ('Z' as u32)
    ||| ('0' as u32) <= (c as u32) && (c as u32) <= ('9' as u32)
    ||| c == '.'
    ||| c == '-'
    ||| c == '_'
}

/// Sanitization of one character: safe characters pass, every other
/// character becomes `_`.
pub open spec fn sanitize_char(c: char) -> char {
    if is_safe_filename_char(c) {
        c
    } else {
        '_'
    }
}

/// Sanitization of a whole filename, character by character.
pub open spec fn spec_sanitize(s: Seq<char>) -> Seq<char> {
    Seq::new(s.len(), |i: int| sanitize_char(s[i]))
}

/// Law: a sanitized filename has the length of the original and contains
/// only safe characters.
pub proof fn lemma_sanitize_safe(s: Seq<char>)
    ensures
        spec_sanitize(s).len() == s.len(),
        forall|i: int| 0 <= i < s.len() ==> is_safe_filename_char(#[trigger] spec_sanitize(s)[i]),
{
}

fn char_is_safe(c: char) -> (r: bool)
    ensures
        r == is_safe_filename_char(c),
{
    let u = c as u32;
    (u >= 'a' as u32 && u <= 'z' as u32) || (u >= 'A' as u32 && u <= 'Z' as u32) || (u >= '0'
        as u32 && u <= '9' as u32) || c == '.' || c == '-' || c == '_'
}

/// Sanitize a filename: safe characters pass through unchanged, every other
/// character is replaced with `_`. The result has the same length as the
/// input.
pub fn sanitize_filename(filename: &str) -> (r: String)
    ensures
        r@ == spec_sanitize(filename@),
        r@.len() == filename@.len(),
        forall|i: int| 0 <= i < r@.len() ==> is_safe_filename_char(#[trigger] r@[i]),
{
    let len = filename.unicode_len();
    let mut out = String::new();
    let mut i: usize = 0;
    while i < len
        invariant
            len == filename@.len(),
            i <= len,
            out@ == spec_sanitize(filename@).take(i as int),
        decreases len - i,
    {
        let c = filename.get_char(i);
        proof {
            assert(spec_sanitize(filename@).take(i + 1) =~= spec_sanitize(filename@).take(
                i as int,
            ).push(sanitize_char(filename@[i as int])));
        }
        if char_is_safe(c) {
            push_char(&mut out, c);
        } else {
            push_char(&mut out, '_');
        }
        i += 1;
    }
    proof {
        assert(out@ =~= spec_sanitize(filename@));
    }
    out
}

/// Characters of the textual form of the random unique component: lowercase
/// hexadecimal digits and hyphens.
pub open spec fn is_uuid_char(c: char) -> bool {
    ||| ('0' as u32) <= (c as u32) && (c as u32) <= ('9' as u32)
    ||| ('a' as u32) <= (c as u32) && (c as u32) <= ('f' as u32)
    ||| c == '-'
}

/// The textual form of the random unique component: exactly 36 characters,
/// each a lowercase hexadecimal digit or a hyphen.
pub open spec fn is_uuid_text(u: Seq<char>) -> bool {
    &&& u.len() == 36
    &&& forall|i: int| 0 <= i < u.len() ==> is_uuid_char(#[trigger] u[i])
}

/// Relies on `uuid::Uuid::new_v4` and the hyphenated `Display` form of
/// `uuid::Uuid`: 36 characters, lowercase hexadecimal digits and hyphens.
/// Nothing is assumed about which identifier comes back.
#[verifier::external_body]
pub(crate) fn fresh_uuid_string() -> (r: String)
    ensures
        is_uuid_text(r@),
{
    uuid::Uuid::new_v4().to_string()
}

/// The shape of a storage key: `"{prefix}/{unique}_{sanitized}"`.
pub open spec fn spec_file_key(prefix: Seq<char>, unique: Seq<char>, sanitized: Seq<char>) -> Seq<
    char,
> {
    prefix + "/"@ + unique + "_"@ + sanitized
}

/// Generate a storage key for an uploaded file: the configured prefix, a
/// slash, a fresh random unique component, an underscore, and the sanitized
/// filename.
pub fn generate_file_key(filename: &str, prefix: &str) -> (r: String)
    ensures
        exists|u: Seq<char>|
            is_uuid_text(u) && r@ == spec_file_key(prefix@, u, spec_sanitize(filename@)),
        r@.len() == prefix@.len() + 38 + filename@.len(),
        r@.take(prefix@.len() as int + 1) == prefix@ + "/"@,
        r@.skip(prefix@.len() as int + 37) == "_"@ + spec_sanitize(filename@),
{
    let unique = fresh_uuid_string();
    let sanitized = sanitize_filename(filename);
    let mut r = String::from_str(prefix);
    r.append("/");
    r.append(unique.as_str());
    r.append("_");
    r.append(sanitized.as_str());
    proof {
        reveal_strlit("/");
        reveal_strlit("_");
        assert(is_uuid_text(unique@) && r@ == spec_file_key(
            prefix@,
            unique@,
            spec_sanitize(filename@),
        ));
        assert(r@.take(prefix@.len() as int + 1) =~= prefix@ + "/"@);
        assert(r@.skip(prefix@.len() as int + 37) =~= "_"@ + spec_sanitize(filename@));
    }
    r
}

/// Law: storage keys with the same prefix but different unique components of
/// equal length are different keys, whatever the filenames were.
pub proof fn lemma_file_key_unique(
    prefix: Seq<char>,
    u1: Seq<char>,
    u2: Seq<char>,
    s1: Seq<char>,
    s2: Seq<char>,
)
    requires
        u1.len() == u2.len(),
        u1 != u2,
    ensures
        spec_file_key(prefix, u1, s1) != spec_file_key(prefix, u2, s2),
{
    reveal_strlit("/");
    reveal_strlit("_");
    if spec_file_key(prefix, u1, s1) == spec_file_key(prefix, u2, s2) {
        assert forall|i: int| 0 <= i < u1.len() implies u1[i] == u2[i] by {
            assert(spec_file_key(prefix, u1, s1)[prefix.len() + 1 + i] == u1[i]);
            assert(spec_file_key(prefix, u2, s2)[prefix.len() + 1 + i] == u2[i]);
        }
        assert(u1 =~= u2);
    }
}

/// Locate the designated file field among the field names of a multipart
/// body: the first part named `file`, if any.
pub fn find_file_field(names: &Vec<String>) -> (r: Option<usize>)
    ensures
        (r matches Some(i) ==> i < names@.len() && names@[i as int]@ == "file"@ && (forall|j: int|
            0 <= j < i ==> names@[j]@ != "file"@)),
        r is None ==> (forall|j: int| 0 <= j < names@.len() ==> names@[j]@ != "file"@),
{
    let mut i: usize = 0;
    while i < names.len()
        invariant
            i <= names@.len(),
            forall|j: int| 0 <= j < i ==> names@[j]@ != "file"@,
        decreases names@.len() - i,
    {
        if str_eq(names[i].as_str(), "file") {
            return Some(i);
        }
        i += 1;
    }
    None
}

/// The filename used for an extracted file part: the declared one when the
/// client sent one, otherwise a generic fallback.
pub fn resolve_filename(declared: Option<String>) -> (r: String)
    ensures
        (declared matches Some(name) ==> r@ == name@),
        (declared is None ==> r@ == "file"@),
{
    match declared {
        Some(name) => name,
        None => String::from_str("file"),
    }
}

/// Response for a successful upload: built only after both backends have
/// accepted the file.
#[derive(Debug)]
pub struct UploadResponse {
    /// The locator under which the object store serves the file.
    pub s3_url: String,
    /// The content address of the uploaded bytes.
    pub ipfs_hash: String,
    /// The original (unsanitized) filename.
    pub filename: String,
    /// The exact number of bytes written, as counted while streaming.
    pub size: u64,
}

} // verus!
