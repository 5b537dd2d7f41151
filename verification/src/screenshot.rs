//! Screenshot correlation: content-addressed names for save-state preview
//! images, and the read-only lookup that prefers the current naming scheme
//! and falls back to a legacy one.
//!
//! The name of a preview image is a digest over the canonicalized content
//! path, the core identifier and the state slot. An older scheme omitted
//! the core; images recorded under it are still found.

use sha2::Digest;
use vstd::prelude::*;
use vstd::string::StringExecFns;
use vstd::utf8::encode_utf8;

verus! {

/// What SHA-256 returns for a byte sequence; the digest depends on the
/// bytes alone.
pub uninterp spec fn sha256_of(data: Seq<u8>) -> Seq<u8>;

/// What Crockford base32 encoding returns for a byte sequence; the text
/// depends on the bytes alone.
pub uninterp spec fn crockford_of(data: Seq<u8>) -> Seq<char>;

/// Relies on sha2's `Sha256`: the digest is 32 bytes and a function of the
/// input alone.
#[verifier::external_body]
fn sha256(data: &Vec<u8>) -> (r: Vec<u8>)
    ensures
        r@ == sha256_of(data@),
        r@.len() == 32,
{
    let digest = sha2::Sha256::digest(data.as_slice());
    digest.to_vec()
}

/// Relies on base32's `encode` with the Crockford alphabet: the text is a
/// function of the input bytes alone.
#[verifier::external_body]
fn base32_crockford(data: &Vec<u8>) -> (r: String)
    ensures
        r@ == crockford_of(data@),
{
    base32::encode(base32::Alphabet::Crockford, data.as_slice())
}

/// The bytes hashed for a preview image name: the content path, the core
/// identifier under the current scheme (the legacy scheme omits it), and
/// the state slot as one little-endian byte.
pub open spec fn digest_input(path: Seq<char>, core: Option<Seq<char>>, slot: i8) -> Seq<u8> {
    encode_utf8(path) + (match core {
        Some(c) => encode_utf8(c),
        None => Seq::empty(),
    }) + seq![slot as u8]
}

/// The file name of a preview image: the Crockford base32 of the SHA-256
/// digest of the input, with a `.png` extension.
pub open spec fn spec_screenshot_name(
    path: Seq<char>,
    core: Option<Seq<char>>,
    slot: i8,
) -> Seq<char> {
    crockford_of(sha256_of(digest_input(path, core, slot))) + ".png"@
}

/// Computes the preview image file name for a path, an optional core and a
/// slot.
pub fn screenshot_name(path: &String, core: Option<&String>, slot: i8) -> (r: String)
    ensures
        r@ == spec_screenshot_name(
            path@,
            match core {
                Some(c) => Some(c@),
                None => None,
            },
            slot,
        ),
{
    let mut data: Vec<u8> = Vec::new();
    data.extend_from_slice(path.as_str().as_bytes());
    match core {
        Some(c) => {
            data.extend_from_slice(c.as_str().as_bytes());
        },
        None => {},
    }
    #[verifier::truncate]
    let slot_byte = slot as u8;
    data.push(slot_byte);
    assert(data@ =~= digest_input(
        path@,
        match core {
            Some(c) => Some(c@),
            None => None::<Seq<char>>,
        },
        slot,
    ));
    let digest = sha256(&data);
    let mut name = base32_crockford(&digest);
    proof {
        reveal_strlit(".png");
    }
    name.append(".png");
    name
}

/// The file name under the current scheme, which includes the core.
pub fn primary_screenshot_name(path: &String, core: &String, slot: i8) -> (r: String)
    ensures
        r@ == spec_screenshot_name(path@, Some(core@), slot),
{
    screenshot_name(path, Some(core), slot)
}

/// The file name under the legacy scheme, which omitted the core.
pub fn legacy_screenshot_name(path: &String, slot: i8) -> (r: String)
    ensures
        r@ == spec_screenshot_name(path@, None, slot),
{
    screenshot_name(path, None, slot)
}

/// Picks the preview image to show, given which candidate files exist.
/// The current scheme wins whenever its file exists; the legacy file is
/// used only as a fallback; with neither present there is no screenshot.
/// The lookup is read-only: it never invents a name that was not handed
/// to it.
pub fn choose_screenshot(
    primary: String,
    legacy: String,
    primary_exists: bool,
    legacy_exists: bool,
) -> (r: Option<String>)
    ensures
        primary_exists ==> (r matches Some(p) && p@ == primary@),
        !primary_exists && legacy_exists ==> (r matches Some(p) && p@ == legacy@),
        !primary_exists && !legacy_exists ==> r is None,
{
    if primary_exists {
        Some(primary)
    } else if legacy_exists {
        Some(legacy)
    } else {
        None
    }
}

} // verus!
