//! The profile store's pure part: paths of profiles and validation of
//! explicitly named profiles against the filesystem state handed in by the
//! caller.
//!
//! The profile directory is discovered once at process start from the
//! platform's configuration-directory conventions and passed in; the
//! filesystem queries themselves (existence checks, directory listing) happen
//! at the caller's edge, which hands their outcomes to these functions.
use vstd::prelude::*;
use vstd::string::StringExecFns;
use crate::error::Error;

verus! {

/// The path a profile of this name is expected at: the profile directory
/// joined with the name, with no normalization of the name.
pub open spec fn profile_path_view(profile_dir: Seq<char>, name: Seq<char>) -> Seq<char> {
    profile_dir + seq!['/'] + name
}

/// Joins a profile name onto the profile directory. Pure: no filesystem
/// access, and the name is not normalized in any way.
pub fn profile_path(profile_dir: &String, name: &String) -> (r: String)
    ensures
        r@ == profile_path_view(profile_dir@, name@),
{
    let mut p = profile_dir.clone();
    p.append("/");
    p.append(name.as_str());
    proof {
        reveal_strlit("/");
        assert(p@ =~= profile_path_view(profile_dir@, name@));
    }
    p
}

/// The error produced when a named profile is absent: it names the profile
/// and the path where it was expected.
pub open spec fn validation_failure(profile_dir: Seq<char>, name: Seq<char>, e: Error) -> bool {
    &&& e matches Error::ValidationFailure { name: n, expected_path: p }
    &&& n@ == name
    &&& p@ == profile_path_view(profile_dir, name)
}

/// Decides what a single explicit profile name's existence check means:
/// a present profile passes, an absent one is a validation failure carrying
/// the path where the profile was expected.
pub fn validate_outcome(name: &String, exists: bool, profile_dir: &String) -> (r: Result<(), Error>)
    ensures
        exists ==> r is Ok,
        !exists ==> (r matches Err(e) && validation_failure(profile_dir@, name@, e)),
{
    if exists {
        Ok(())
    } else {
        Err(
            Error::ValidationFailure {
                name: name.clone(),
                expected_path: profile_path(profile_dir, name),
            },
        )
    }
}

/// Validates a list of explicitly named profiles against their existence
/// checks: it succeeds exactly when every named profile exists, and otherwise
/// fails on the first absent name, regardless of the names after it.
pub fn validate_profiles(names: &Vec<String>, exists: &Vec<bool>, profile_dir: &String) -> (r:
    Result<(), Error>)
    requires
        names@.len() == exists@.len(),
    ensures
        r is Ok <==> (forall|k: int| 0 <= k < exists@.len() ==> exists@[k]),
        r matches Err(e) ==> exists|j: int|
            0 <= j < exists@.len() && !exists@[j] && (forall|k: int| 0 <= k < j ==> exists@[k])
                && validation_failure(profile_dir@, names@[j]@, e),
{
    let mut i: usize = 0;
    while i < names.len()
        invariant
            i <= names@.len(),
            names@.len() == exists@.len(),
            forall|k: int| 0 <= k < i ==> exists@[k],
        decreases names@.len() - i,
    {
        match validate_outcome(&names[i], exists[i], profile_dir) {
            Ok(_) => {},
            Err(e) => {
                proof {
                    assert(0 <= i < exists@.len() && !exists@[i as int] && (forall|k: int|
                        0 <= k < i ==> exists@[k]) && validation_failure(
                        profile_dir@,
                        names@[i as int]@,
                        e,
                    ));
                }
                return Err(e);
            },
        }
        i = i + 1;
    }
    Ok(())
}

/// Decides what a failed directory listing means: an absent profile
/// directory is `MissingProfiles`, any other failure is surfaced with the
/// offending path attached.
pub fn discovery_error(not_found: bool, profile_dir: &String, io_message: String) -> (r: Error)
    ensures
        not_found ==> r == Error::MissingProfiles,
        !not_found ==> (r matches Error::FilesystemAccess(f) && f.source@ == io_message@
            && f.context@ == profile_dir@),
{
    if not_found {
        Error::MissingProfiles
    } else {
        Error::FilesystemAccess(
            crate::error::FileContextErrorExt::with_path(io_message, profile_dir),
        )
    }
}

} // verus!
