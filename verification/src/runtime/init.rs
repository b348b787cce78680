//! Start-up of the runtime and its version.

use vstd::prelude::*;
use crate::hip::device::is_version;
use crate::runtime::result::{runtime_translated, HipError, HipErrorKind, HipResult, Result};

verus! {

/// Starts the runtime. `init_fn` is called once with the flags 0 and its
/// raw code is translated.
pub fn initialize<F>(init_fn: F) -> (r: Result<()>) where F: FnOnce(u32) -> u32
    requires
        call_requires(init_fn, (0u32,)),
    ensures
        exists|code: u32| call_ensures(init_fn, (0u32,), code) && r == runtime_translated((), code),
{
    let code = init_fn(0);
    let r = ((), code).to_result();
    assert(call_ensures(init_fn, (0u32,), code) && r == runtime_translated((), code));
    r
}

/// The three numbers of an encoded version, which is
/// `major * 1_000_000 + minor * 1_000 + patch`; the number -1, which stands
/// for no version, gives three zeros. Division truncates toward zero and the
/// remainder has the sign of the number, as the machine divides; a negative
/// part is then widened as a cast does it.
pub open spec fn version_parts(version: i32) -> (u64, u64, u64) {
    if version == -1 {
        (0, 0, 0)
    } else if version >= 0 {
        (
            (version / 1_000_000) as u64,
            ((version / 1_000) % 1_000) as u64,
            (version % 1_000) as u64,
        )
    } else {
        (
            (-((-version) / 1_000_000)) as u64,
            (-(((-version) / 1_000) % 1_000)) as u64,
            (-((-version) % 1_000)) as u64,
        )
    }
}

/// Decodes the version number that the driver reports.
pub fn decode_hip_version(version: i32) -> (v: semver::Version)
    ensures
        is_version(v, version_parts(version).0, version_parts(version).1, version_parts(version).2),
        0 <= version ==> v.major == version / 1_000_000 && v.minor == (version / 1_000) % 1_000
            && v.patch == version % 1_000,
{
    if version == -1 {
        return semver::Version::new(0, 0, 0);
    }
    let major: i32 = version / 1_000_000;
    let minor: i32 = (version / 1_000) % 1_000;
    let patch: i32 = version % 1_000;
    semver::Version::new(
        #[verifier::truncate]
        (major as u64),
        #[verifier::truncate]
        (minor as u64),
        #[verifier::truncate]
        (patch as u64),
    )
}

/// Asks for the version of the runtime. `query` is called once; it returns
/// the encoded version and the raw code; for code 0 the decoded version
/// comes back, else the classified error.
pub fn runtime_get_version<F>(query: F) -> (r: Result<semver::Version>) where
    F: FnOnce() -> (i32, u32),

    requires
        call_requires(query, ()),
    ensures
        exists|version: i32, code: u32|
            call_ensures(query, (), (version, code)) && match r {
                Ok(v) => code == 0 && is_version(
                    v,
                    version_parts(version).0,
                    version_parts(version).1,
                    version_parts(version).2,
                ),
                Err(e) => code != 0 && e == (HipError { kind: HipErrorKind::decode(code), code }),
            },
{
    let (version, code) = query();
    let r: Result<semver::Version> = (decode_hip_version(version), code).to_result();
    assert(call_ensures(query, (), (version, code)) && match r {
        Ok(v) => code == 0 && is_version(
            v,
            version_parts(version).0,
            version_parts(version).1,
            version_parts(version).2,
        ),
        Err(e) => code != 0 && e == (HipError { kind: HipErrorKind::decode(code), code }),
    });
    r
}

} // verus!
