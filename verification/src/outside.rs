//! What this library takes on trust of the crates it calls: `semver` for
//! version numbers and `uuid` for device identifiers.

use vstd::prelude::*;

verus! {

/// `semver::Version`, with its fields as the crate declares them: the
/// three numbers are public `u64` fields, the other two parts are the types
/// below.
#[verifier::external_type_specification]
pub struct ExVersion(semver::Version);

/// `semver::Prerelease`, taken as opaque.
#[verifier::external_type_specification]
#[verifier::external_body]
pub struct ExPrerelease(semver::Prerelease);

/// `semver::BuildMetadata`, taken as opaque.
#[verifier::external_type_specification]
#[verifier::external_body]
pub struct ExBuildMetadata(semver::BuildMetadata);

/// `uuid::Uuid`, taken as opaque; what it holds is named by `uuid_bytes`.
#[verifier::external_type_specification]
#[verifier::external_body]
pub struct ExUuid(uuid::Uuid);

/// The 16 bytes that a `uuid::Uuid` holds, in the order of
/// `Uuid::as_bytes`.
pub uninterp spec fn uuid_bytes(id: uuid::Uuid) -> Seq<u8>;

/// The text of a pre-release part, as `Prerelease::as_str` gives it.
pub uninterp spec fn prerelease_text(pre: semver::Prerelease) -> Seq<char>;

/// The text of a build part, as `BuildMetadata::as_str` gives it.
pub uninterp spec fn build_text(build: semver::BuildMetadata) -> Seq<char>;

/// `semver::Version::new` builds the version of the three numbers given,
/// with an empty pre-release part and an empty build part.
pub assume_specification[ semver::Version::new ](major: u64, minor: u64, patch: u64) -> (v:
    semver::Version)
    ensures
        v.major == major,
        v.minor == minor,
        v.patch == patch,
        prerelease_text(v.pre) == Seq::<char>::empty(),
        build_text(v.build) == Seq::<char>::empty(),
;

/// `uuid::Uuid::from_bytes` wraps the 16 bytes as they are given.
pub assume_specification[ uuid::Uuid::from_bytes ](bytes: uuid::Bytes) -> (id: uuid::Uuid)
    ensures
        uuid_bytes(id) == bytes@,
;

} // verus!
