//! What the build servers report, and how the wanted build is chosen.

use vstd::prelude::*;

use crate::decimal::{build_number_value, is_build_number, parse_build_number};
use crate::marker::{LocalVersion, LocalVersionRecord};

verus! {

/// Why the build server's answer gives no build to install.
#[derive(Debug, Clone, Copy, PartialEq, Eq, Structural)]
pub enum RemoteError {
    /// The server could not be reached, or its answer could not be read.
    Unavailable,
    /// The server lists no versions.
    NoVersions,
    /// The server lists no builds for the version.
    NoBuilds,
    /// The server lists a build whose number cannot be read.
    MalformedBuild,
}

/// The build that the server offers, as plain mathematical values.
pub struct RemoteBuild {
    pub mc_version: Seq<char>,
    pub build: u16,
    pub artifact_filename: Seq<char>,
    pub expected_hash: Seq<char>,
}

/// The build that the server offers: game version, build number, the name
/// of the artifact (empty where the server names none) and the digest that
/// the server publishes for it, in hexadecimal, in either case.
#[derive(Debug, Clone, PartialEq, Eq)]
pub struct RemoteBuildInfo {
    pub mc_version: String,
    pub build: u16,
    pub artifact_filename: String,
    pub expected_hash: String,
}

impl View for RemoteBuildInfo {
    type V = RemoteBuild;

    open spec fn view(&self) -> RemoteBuild {
        RemoteBuild {
            mc_version: self.mc_version@,
            build: self.build,
            artifact_filename: self.artifact_filename@,
            expected_hash: self.expected_hash@,
        }
    }
}

impl DeepView for RemoteBuildInfo {
    type V = RemoteBuild;

    open spec fn deep_view(&self) -> RemoteBuild {
        self@
    }
}

/// What the marker will record once `remote` is installed from a server of
/// type `server_type`.
pub open spec fn installed_as(server_type: Seq<char>, remote: RemoteBuild) -> LocalVersion {
    LocalVersion { server_type, mc_version: remote.mc_version, build: remote.build }
}

impl RemoteBuildInfo {
    /// A copy of this build.
    pub fn duplicate(&self) -> (r: RemoteBuildInfo)
        ensures
            r@ == self@,
    {
        RemoteBuildInfo {
            mc_version: self.mc_version.clone(),
            build: self.build,
            artifact_filename: self.artifact_filename.clone(),
            expected_hash: self.expected_hash.clone(),
        }
    }

    /// What the marker will record once this build is installed from a
    /// server of type `server_type`.
    pub fn installed_record(&self, server_type: &str) -> (r: LocalVersionRecord)
        ensures
            r@ == installed_as(server_type@, self@),
    {
        LocalVersionRecord {
            server_type: server_type.to_owned(),
            mc_version: self.mc_version.clone(),
            build: self.build,
        }
    }
}

/// Whether `b` is the highest of `builds`.
pub open spec fn is_highest(b: u16, builds: Seq<u16>) -> bool {
    builds.contains(b) && forall|i: int| 0 <= i < builds.len() ==> #[trigger] builds[i] <= b
}

/// A list of builds has one highest build at most.
pub proof fn lemma_highest_unique(a: u16, b: u16, builds: Seq<u16>)
    requires
        is_highest(a, builds),
        is_highest(b, builds),
    ensures
        a == b,
{
    let i = choose|i: int| 0 <= i < builds.len() && builds[i] == a;
    let j = choose|j: int| 0 <= j < builds.len() && builds[j] == b;
    assert(builds[i] <= b);
    assert(builds[j] <= a);
}

/// The build to install, given the builds that the server lists: the
/// highest of them, and `NoBuilds` where it lists none.
pub open spec fn latest_build(builds: Seq<u16>) -> Result<u16, RemoteError> {
    if builds.len() == 0 {
        Err(RemoteError::NoBuilds)
    } else {
        Ok(choose|b: u16| is_highest(b, builds))
    }
}

/// The highest of `builds`, and `NoBuilds` where there is none.
pub fn highest_build(builds: &Vec<u16>) -> (r: Result<u16, RemoteError>)
    ensures
        r == latest_build(builds@),
        r matches Ok(b) ==> is_highest(b, builds@),
{
    if builds.len() == 0 {
        return Err(RemoteError::NoBuilds);
    }
    let mut best: u16 = builds[0];
    let ghost mut at: int = 0;
    let mut i: usize = 1;
    while i < builds.len()
        invariant
            1 <= i <= builds.len(),
            0 <= at < i,
            builds@[at] == best,
            forall|j: int| 0 <= j < i ==> #[trigger] builds@[j] <= best,
        decreases builds.len() - i,
    {
        if builds[i] > best {
            best = builds[i];
            proof {
                at = i as int;
            }
        }
        i += 1;
    }
    proof {
        assert(is_highest(best, builds@));
        lemma_highest_unique(best, choose|b: u16| is_highest(b, builds@), builds@);
    }
    Ok(best)
}

/// Whether each of `names` is the text of a build number.
pub open spec fn all_build_numbers(names: Seq<Seq<char>>) -> bool {
    forall|i: int| 0 <= i < names.len() ==> is_build_number(#[trigger] names[i])
}

/// The numbers that `names` denote, in their order.
pub open spec fn build_numbers(names: Seq<Seq<char>>) -> Seq<u16> {
    Seq::new(names.len(), |i: int| build_number_value(names[i]) as u16)
}

/// The build to install, given the builds that the server lists as text:
/// the highest of the numbers listed; `NoBuilds` where the server lists
/// none; `MalformedBuild` where it lists some, and one of them is no build
/// number.
pub open spec fn latest_listed_build(names: Seq<Seq<char>>) -> Result<u16, RemoteError> {
    if names.len() == 0 {
        Err(RemoteError::NoBuilds)
    } else if !all_build_numbers(names) {
        Err(RemoteError::MalformedBuild)
    } else {
        latest_build(build_numbers(names))
    }
}

/// The highest of the build numbers that `all` lists as text; `NoBuilds`
/// where it lists none; `MalformedBuild` where it lists some, and one of
/// them is no build number.
pub fn highest_listed_build(all: &Vec<String>) -> (r: Result<u16, RemoteError>)
    ensures
        r == latest_listed_build(all.deep_view()),
        r matches Ok(b) ==> is_highest(b, build_numbers(all.deep_view())),
{
    let ghost names = all.deep_view();
    if all.len() == 0 {
        return Err(RemoteError::NoBuilds);
    }
    let mut numbers: Vec<u16> = Vec::new();
    let mut i: usize = 0;
    while i < all.len()
        invariant
            i <= all.len(),
            names == all.deep_view(),
            numbers@.len() == i,
            forall|j: int| 0 <= j < i ==> is_build_number(#[trigger] names[j]),
            forall|j: int| 0 <= j < i ==> #[trigger] numbers@[j] == build_number_value(names[j]),
        decreases all.len() - i,
    {
        assert(names[i as int] == all@[i as int]@);
        match parse_build_number(all[i].as_str()) {
            Some(n) => {
                numbers.push(n);
            },
            None => {
                return Err(RemoteError::MalformedBuild);
            },
        }
        i += 1;
    }
    assert(numbers@ =~= build_numbers(names));
    highest_build(&numbers)
}

/// The builds of a version as a server lists them: as numbers, or as text.
#[derive(Debug, Clone, PartialEq, Eq)]
pub enum BuildList {
    Numbers(Vec<u16>),
    Names(Vec<String>),
}

/// The builds of a version as a server lists them, as plain mathematical
/// values.
pub enum Builds {
    Numbers(Seq<u16>),
    Names(Seq<Seq<char>>),
}

impl View for BuildList {
    type V = Builds;

    open spec fn view(&self) -> Builds {
        match self {
            BuildList::Numbers(numbers) => Builds::Numbers(numbers@),
            BuildList::Names(names) => Builds::Names(names.deep_view()),
        }
    }
}

impl DeepView for BuildList {
    type V = Builds;

    open spec fn deep_view(&self) -> Builds {
        self@
    }
}

/// The build to install, given the builds that the server lists.
pub open spec fn latest_of(builds: Builds) -> Result<u16, RemoteError> {
    match builds {
        Builds::Numbers(numbers) => latest_build(numbers),
        Builds::Names(names) => latest_listed_build(names),
    }
}

impl BuildList {
    /// The build to install: the highest that the server lists.
    pub fn latest(&self) -> (r: Result<u16, RemoteError>)
        ensures
            r == latest_of(self@),
    {
        match self {
            BuildList::Numbers(numbers) => highest_build(numbers),
            BuildList::Names(names) => highest_listed_build(names),
        }
    }
}

/// The newest of `versions`, which the servers list oldest first: the last.
pub open spec fn newest_version(versions: Seq<Seq<char>>) -> Result<Seq<char>, RemoteError> {
    if versions.len() > 0 {
        Ok(versions.last())
    } else {
        Err(RemoteError::NoVersions)
    }
}

/// The newest of `versions`: the last of the list, and `NoVersions` where
/// the list is empty.
pub fn newest(versions: &Vec<String>) -> (r: Result<String, RemoteError>)
    ensures
        match r {
            Ok(v) => newest_version(versions.deep_view()) == Ok::<Seq<char>, RemoteError>(v@),
            Err(e) => newest_version(versions.deep_view()) == Err::<Seq<char>, RemoteError>(e),
        },
{
    let n = versions.len();
    if n == 0 {
        Err(RemoteError::NoVersions)
    } else {
        Ok(versions[n - 1].clone())
    }
}

} // verus!
