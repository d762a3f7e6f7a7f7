//! The build servers that the updater knows. Each kind has its addresses,
//! the server type that it writes into the marker, and the digest that it
//! publishes for its artifacts.

use vstd::prelude::*;

use crate::digest::{digest_of, hash_matches, upper_hex, HashAlgorithm, IntegrityError};
use crate::paper;
use crate::purpur;
use crate::remote::{RemoteBuild, RemoteBuildInfo};

verus! {

/// A build server.
#[derive(Debug, Clone, Copy, PartialEq, Eq, Structural)]
pub enum BackendKind {
    Paper,
    Purpur,
}

impl BackendKind {
    /// The server type that a server of this kind writes into its marker.
    pub open spec fn server_type_name(self) -> Seq<char> {
        match self {
            BackendKind::Paper => paper::server_type(),
            BackendKind::Purpur => purpur::server_type(),
        }
    }

    /// The digest that this kind publishes for its artifacts.
    pub open spec fn algorithm(self) -> HashAlgorithm {
        match self {
            BackendKind::Paper => HashAlgorithm::Sha256,
            BackendKind::Purpur => HashAlgorithm::Md5,
        }
    }

    /// The address that lists the versions.
    pub open spec fn project_address(self) -> Seq<char> {
        match self {
            BackendKind::Paper => paper::project_address(),
            BackendKind::Purpur => purpur::project_address(),
        }
    }

    /// The address that lists the builds of `version`.
    pub open spec fn version_address(self, version: Seq<char>) -> Seq<char> {
        match self {
            BackendKind::Paper => paper::version_address(version),
            BackendKind::Purpur => purpur::version_address(version),
        }
    }

    /// The address that describes a build.
    pub open spec fn build_address(self, version: Seq<char>, build: u16) -> Seq<char> {
        match self {
            BackendKind::Paper => paper::build_address(version, build),
            BackendKind::Purpur => purpur::build_address(version, build),
        }
    }

    /// The address of the artifact of `remote`.
    pub open spec fn artifact_address(self, remote: RemoteBuild) -> Seq<char> {
        match self {
            BackendKind::Paper => paper::download_address(
                remote.mc_version,
                remote.build,
                remote.artifact_filename,
            ),
            BackendKind::Purpur => purpur::download_address(remote.mc_version, remote.build),
        }
    }

    /// The server type that a server of this kind writes into its marker.
    pub fn server_type(&self) -> (r: &'static str)
        ensures
            r@ == self.server_type_name(),
    {
        match self {
            BackendKind::Paper => "Paper",
            BackendKind::Purpur => "Purpur",
        }
    }

    /// The digest that this kind publishes for its artifacts.
    pub fn hash_algorithm(&self) -> (r: HashAlgorithm)
        ensures
            r == self.algorithm(),
    {
        match self {
            BackendKind::Paper => HashAlgorithm::Sha256,
            BackendKind::Purpur => HashAlgorithm::Md5,
        }
    }

    /// The address that lists the versions.
    pub fn project_url(&self) -> (r: String)
        ensures
            r@ == self.project_address(),
    {
        match self {
            BackendKind::Paper => paper::project_url(),
            BackendKind::Purpur => purpur::project_url(),
        }
    }

    /// The address that lists the builds of `version`.
    pub fn version_url(&self, version: &str) -> (r: String)
        ensures
            r@ == self.version_address(version@),
    {
        match self {
            BackendKind::Paper => paper::version_url(version),
            BackendKind::Purpur => purpur::version_url(version),
        }
    }

    /// The address that describes a build.
    pub fn build_url(&self, version: &str, build: u16) -> (r: String)
        ensures
            r@ == self.build_address(version@, build),
    {
        match self {
            BackendKind::Paper => paper::build_url(version, build),
            BackendKind::Purpur => purpur::build_url(version, build),
        }
    }

    /// The address from which the artifact of `remote` is downloaded.
    pub fn download_url(&self, remote: &RemoteBuildInfo) -> (r: String)
        ensures
            r@ == self.artifact_address(remote@),
    {
        match self {
            BackendKind::Paper => paper::url(
                remote.mc_version.as_str(),
                &remote.build,
                remote.artifact_filename.as_str(),
            ),
            BackendKind::Purpur => purpur::url(remote.mc_version.as_str(), &remote.build),
        }
    }

    /// Checks the contents of a downloaded artifact against the digest that
    /// the server published, under the algorithm of this kind.
    pub fn verify(&self, contents: &[u8], expected: &str) -> (r: Result<(), IntegrityError>)
        ensures
            r is Ok <==> hash_matches(digest_of(self.algorithm(), contents@), expected@),
            r matches Err(e) ==> e.actual@ == upper_hex(digest_of(self.algorithm(), contents@)),
    {
        match self {
            BackendKind::Paper => paper::verify_binary(contents, expected),
            BackendKind::Purpur => purpur::verify_binary(contents, expected),
        }
    }
}

} // verus!
