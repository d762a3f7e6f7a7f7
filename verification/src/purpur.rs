//! The Purpur build server: its addresses, the build it offers, and the
//! check of its artifacts, which carry an MD5 digest.

use vstd::prelude::*;
use vstd::string::*;

use crate::decimal::{decimal, push_decimal};
use crate::digest::{
    digest_of, hash_matches, upper_hex, verify_contents, HashAlgorithm, IntegrityError,
};
use crate::remote::{
    build_numbers, highest_listed_build, is_highest, latest_listed_build, newest, newest_version,
    RemoteBuild, RemoteBuildInfo, RemoteError,
};

verus! {

/// The server type that a Purpur server writes into its marker.
pub open spec fn server_type() -> Seq<char> {
    "Purpur"@
}

/// The address of the project, which lists the versions.
pub open spec fn project_address() -> Seq<char> {
    "https://api.purpurmc.org/v2/purpur"@
}

/// The address of a version, which lists its builds.
pub open spec fn version_address(version: Seq<char>) -> Seq<char> {
    project_address() + "/"@ + version
}

/// The address of a build, which gives the digest of its artifact.
pub open spec fn build_address(version: Seq<char>, build: u16) -> Seq<char> {
    version_address(version) + "/"@ + decimal(build as nat)
}

/// The address of the artifact of a build.
pub open spec fn download_address(version: Seq<char>, build: u16) -> Seq<char> {
    build_address(version, build) + "/download"@
}

/// The address of the project, which lists the versions.
pub fn project_url() -> (r: String)
    ensures
        r@ == project_address(),
{
    "https://api.purpurmc.org/v2/purpur".to_owned()
}

/// The address of `version`, which lists its builds.
pub fn version_url(version: &str) -> (r: String)
    ensures
        r@ == version_address(version@),
{
    let mut out = project_url();
    out.append("/");
    out.append(version);
    out
}

/// The address of a build, which gives the digest of its artifact.
pub fn build_url(version: &str, build: u16) -> (r: String)
    ensures
        r@ == build_address(version@, build),
{
    let mut out = version_url(version);
    out.append("/");
    push_decimal(&mut out, build);
    out
}

/// The address from which the artifact of a build is downloaded.
pub fn url(release: &str, build: &u16) -> (r: String)
    ensures
        r@ == download_address(release@, *build),
{
    let mut out = build_url(release, *build);
    out.append("/download");
    out
}

/// The newest version that the project lists: the last one.
pub fn get_latest_version(versions: &Vec<String>) -> (r: Result<String, RemoteError>)
    ensures
        match r {
            Ok(v) => newest_version(versions.deep_view()) == Ok::<Seq<char>, RemoteError>(v@),
            Err(e) => newest_version(versions.deep_view()) == Err::<Seq<char>, RemoteError>(e),
        },
{
    newest(versions)
}

/// The build to install of a version. The server lists its builds as text.
///
/// The result is the highest of the numbers listed; `NoBuilds` where the
/// server lists none; `MalformedBuild` where it lists some, and one of them
/// is no build number.
pub fn get_build(all: &Vec<String>) -> (r: Result<u16, RemoteError>)
    ensures
        r == latest_listed_build(all.deep_view()),
        r matches Ok(b) ==> is_highest(b, build_numbers(all.deep_view())),
{
    highest_listed_build(all)
}

/// The build that the server offers, from what it reports of the build:
/// the MD5 digest of the artifact. The server names no artifact.
pub fn build_info(version: &str, build: u16, md5: &str) -> (r: RemoteBuildInfo)
    ensures
        r@ == (RemoteBuild {
            mc_version: version@,
            build,
            artifact_filename: Seq::empty(),
            expected_hash: md5@,
        }),
{
    RemoteBuildInfo {
        mc_version: version.to_owned(),
        build,
        artifact_filename: String::new(),
        expected_hash: md5.to_owned(),
    }
}

/// Checks the contents of a downloaded artifact against the MD5 digest that
/// the server published, given in hexadecimal in either case.
///
/// On `Err` the artifact is corrupt, and the caller removes it.
pub fn verify_binary(contents: &[u8], hash: &str) -> (r: Result<(), IntegrityError>)
    ensures
        r is Ok <==> hash_matches(digest_of(HashAlgorithm::Md5, contents@), hash@),
        r matches Err(e) ==> e.actual@ == upper_hex(digest_of(HashAlgorithm::Md5, contents@)),
{
    verify_contents(HashAlgorithm::Md5, contents, hash)
}

} // verus!
