//! The Paper build server: its addresses, the build it offers, and the
//! check of its artifacts, which carry a SHA-256 digest.

use vstd::prelude::*;
use vstd::string::*;

use crate::decimal::{decimal, push_decimal};
use crate::digest::{
    digest_of, hash_matches, upper_hex, verify_contents, HashAlgorithm, IntegrityError,
};
use crate::remote::{
    highest_build, is_highest, latest_build, newest, newest_version, RemoteBuild, RemoteBuildInfo,
    RemoteError,
};

verus! {

/// The server type that a Paper server writes into its marker.
pub open spec fn server_type() -> Seq<char> {
    "Paper"@
}

/// The address of the project, which lists the versions.
pub open spec fn project_address() -> Seq<char> {
    "https://api.papermc.io/v2/projects/paper"@
}

/// The address of a version, which lists its builds.
pub open spec fn version_address(version: Seq<char>) -> Seq<char> {
    project_address() + "/versions/"@ + version
}

/// The address of a build, which names its artifact and the digest.
pub open spec fn build_address(version: Seq<char>, build: u16) -> Seq<char> {
    version_address(version) + "/builds/"@ + decimal(build as nat)
}

/// The address of the artifact of a build.
pub open spec fn download_address(version: Seq<char>, build: u16, filename: Seq<char>) -> Seq<
    char,
> {
    build_address(version, build) + "/downloads/"@ + filename
}

/// The address of the project, which lists the versions.
pub fn project_url() -> (r: String)
    ensures
        r@ == project_address(),
{
    "https://api.papermc.io/v2/projects/paper".to_owned()
}

/// The address of `version`, which lists its builds.
pub fn version_url(version: &str) -> (r: String)
    ensures
        r@ == version_address(version@),
{
    let mut out = project_url();
    out.append("/versions/");
    out.append(version);
    out
}

/// The address of a build, which names its artifact and the digest.
pub fn build_url(version: &str, build: u16) -> (r: String)
    ensures
        r@ == build_address(version@, build),
{
    let mut out = version_url(version);
    out.append("/builds/");
    push_decimal(&mut out, build);
    out
}

/// The address from which the artifact `filename` of a build is downloaded.
pub fn url(version: &str, build: &u16, filename: &str) -> (r: String)
    ensures
        r@ == download_address(version@, *build, filename@),
{
    let mut out = build_url(version, *build);
    out.append("/downloads/");
    out.append(filename);
    out
}

/// The newest version that the project lists: the last one.
pub fn get_latest_version(versions: &Vec<String>) -> (r: Result<String, RemoteError>)
    ensures
        match r {
            Ok(v) => newest_version(versions.deep_view()) == Ok::<Seq<char>, RemoteError>(v@),
            Err(e) => newest_version(versions.deep_view()) == Err::<Seq<char>, RemoteError>(e),
        },
{
    newest(versions)
}

/// The build to install of a version: the highest that the server lists,
/// and `NoBuilds` where it lists none.
pub fn get_build(builds: &Vec<u16>) -> (r: Result<u16, RemoteError>)
    ensures
        r == latest_build(builds@),
        r matches Ok(b) ==> is_highest(b, builds@),
{
    highest_build(builds)
}

/// The build that the server offers, from what it reports of the build:
/// the name of the artifact and its SHA-256 digest.
pub fn build_info(version: &str, build: u16, name: &str, sha256: &str) -> (r: RemoteBuildInfo)
    ensures
        r@ == (RemoteBuild {
            mc_version: version@,
            build,
            artifact_filename: name@,
            expected_hash: sha256@,
        }),
{
    RemoteBuildInfo {
        mc_version: version.to_owned(),
        build,
        artifact_filename: name.to_owned(),
        expected_hash: sha256.to_owned(),
    }
}

/// Checks the contents of a downloaded artifact against the SHA-256 digest
/// that the server published, given in hexadecimal in either case.
///
/// On `Err` the artifact is corrupt, and the caller removes it.
pub fn verify_binary(contents: &[u8], hash: &str) -> (r: Result<(), IntegrityError>)
    ensures
        r is Ok <==> hash_matches(digest_of(HashAlgorithm::Sha256, contents@), hash@),
        r matches Err(e) ==> e.actual@ == upper_hex(digest_of(HashAlgorithm::Sha256, contents@)),
{
    verify_contents(HashAlgorithm::Sha256, contents, hash)
}

} // verus!
