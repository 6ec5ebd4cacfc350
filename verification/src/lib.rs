//! Self-update core: given a release repository, a binary name and the path of
//! the live executable, decide the version to install, iterate candidate
//! platform targets, locate the candidate binary inside a staged artifact,
//! gate installation behind a health check and a confirmation prompt, and
//! replace the live executable through an atomic backup/swap/rollback
//! protocol that never leaves the target path in a partially written state.
//!
//! The decision logic lives here and is verified; all I/O (network fetching,
//! filesystem renames, process spawning, the terminal) is performed by a
//! driver that executes the [`machine::UpdateAction`]s this library emits and
//! feeds the resulting [`machine::UpdateEvent`]s back in.

use vstd::prelude::*;
use vstd::string::*;

pub mod confirm;
pub mod locate;
pub mod machine;
pub mod swap;
pub mod text;
pub mod version;

verus! {

/// The parameters used to fetch and install binaries.
#[derive(Debug)]
pub struct BinswapGithub {
    /// The name of the author or team of the repository on GitHub.
    pub repo_author: String,
    /// The name of the repository on GitHub.
    pub repo_name: String,
    /// The name of the asset in the release. If not given `bin_name` will be
    /// used.
    pub asset_name: Option<String>,
    /// The name of the binary in the release.
    pub bin_name: String,
    /// The desired version to download. If not given the latest will be used.
    pub version: Option<String>,
    /// Do not prompt the user for confirmation before installing.
    pub no_confirm: bool,
    /// The command to run to check that the binary is executable before
    /// installing it.
    pub check_with_cmd: String,
    /// Do not run the check command before installing.
    pub no_check_with_cmd: bool,
    /// Determine and download the binary, but do not install it.
    pub dry_run: bool,
    /// The possible targets to download. If provided, targets will not be
    /// auto-detected.
    pub targets: Option<Vec<String>>,
}

/// Collects the parameters of a [`BinswapGithub`] request. Finish by
/// calling `.build()`.
#[derive(Debug)]
pub struct BinswapGithubBuilder {
    /// The name of the author or team of the repository on GitHub.
    pub repo_author: Option<String>,
    /// The name of the repository on GitHub.
    pub repo_name: Option<String>,
    /// The name of the asset in the release.
    pub asset_name: Option<String>,
    /// The name of the binary in the release.
    pub bin_name: Option<String>,
    /// The desired version to download.
    pub version: Option<String>,
    /// Do not prompt the user for confirmation before installing.
    pub no_confirm: bool,
    /// The command to run to check the binary before installing it.
    pub check_with_cmd: Option<String>,
    /// Do not run the check command before installing.
    pub no_check_with_cmd: bool,
    /// Determine and download the binary, but do not install it.
    pub dry_run: bool,
    /// The possible targets to download.
    pub targets: Option<Vec<String>>,
}

/// Create a new builder. Finish by calling `.build()`.
pub fn builder() -> (r: BinswapGithubBuilder)
    ensures
        r.repo_author is None,
        r.repo_name is None,
        r.asset_name is None,
        r.bin_name is None,
        r.version is None,
        !r.no_confirm,
        r.check_with_cmd is None,
        !r.no_check_with_cmd,
        !r.dry_run,
        r.targets is None,
{
    BinswapGithubBuilder {
        repo_author: None,
        repo_name: None,
        asset_name: None,
        bin_name: None,
        version: None,
        no_confirm: false,
        check_with_cmd: None,
        no_check_with_cmd: false,
        dry_run: false,
        targets: None,
    }
}

impl BinswapGithubBuilder {
    /// Sets the repository author.
    pub fn repo_author(self, v: &str) -> (r: Self)
        ensures
            r == (BinswapGithubBuilder { repo_author: r.repo_author, ..self }),
            r.repo_author matches Some(s) && s@ == v@,
    {
        BinswapGithubBuilder { repo_author: Some(String::from_str(v)), ..self }
    }

    /// Sets the repository name.
    pub fn repo_name(self, v: &str) -> (r: Self)
        ensures
            r == (BinswapGithubBuilder { repo_name: r.repo_name, ..self }),
            r.repo_name matches Some(s) && s@ == v@,
    {
        BinswapGithubBuilder { repo_name: Some(String::from_str(v)), ..self }
    }

    /// Sets the release asset name.
    pub fn asset_name(self, v: &str) -> (r: Self)
        ensures
            r == (BinswapGithubBuilder { asset_name: r.asset_name, ..self }),
            r.asset_name matches Some(s) && s@ == v@,
    {
        BinswapGithubBuilder { asset_name: Some(String::from_str(v)), ..self }
    }

    /// Sets the binary name.
    pub fn bin_name(self, v: &str) -> (r: Self)
        ensures
            r == (BinswapGithubBuilder { bin_name: r.bin_name, ..self }),
            r.bin_name matches Some(s) && s@ == v@,
    {
        BinswapGithubBuilder { bin_name: Some(String::from_str(v)), ..self }
    }

    /// Sets the desired version.
    pub fn version(self, v: &str) -> (r: Self)
        ensures
            r == (BinswapGithubBuilder { version: r.version, ..self }),
            r.version matches Some(s) && s@ == v@,
    {
        BinswapGithubBuilder { version: Some(String::from_str(v)), ..self }
    }

    /// Sets whether to skip the confirmation prompt.
    pub fn no_confirm(self, v: bool) -> (r: Self)
        ensures
            r == (BinswapGithubBuilder { no_confirm: v, ..self }),
    {
        BinswapGithubBuilder { no_confirm: v, ..self }
    }

    /// Sets the health-check command argument.
    pub fn check_with_cmd(self, v: &str) -> (r: Self)
        ensures
            r == (BinswapGithubBuilder { check_with_cmd: r.check_with_cmd, ..self }),
            r.check_with_cmd matches Some(s) && s@ == v@,
    {
        BinswapGithubBuilder { check_with_cmd: Some(String::from_str(v)), ..self }
    }

    /// Sets whether to skip the health check.
    pub fn no_check_with_cmd(self, v: bool) -> (r: Self)
        ensures
            r == (BinswapGithubBuilder { no_check_with_cmd: v, ..self }),
    {
        BinswapGithubBuilder { no_check_with_cmd: v, ..self }
    }

    /// Sets whether this is a dry run.
    pub fn dry_run(self, v: bool) -> (r: Self)
        ensures
            r == (BinswapGithubBuilder { dry_run: v, ..self }),
    {
        BinswapGithubBuilder { dry_run: v, ..self }
    }

    /// Sets the whole target list. If provided, targets will not be
    /// auto-detected.
    pub fn targets(self, ts: Vec<String>) -> (r: Self)
        ensures
            r == (BinswapGithubBuilder { targets: r.targets, ..self }),
            r.targets matches Some(x) && x == ts,
    {
        BinswapGithubBuilder { targets: Some(ts), ..self }
    }

    /// Add the target to the list of possible targets to download. If
    /// provided, targets will not be auto-detected.
    pub fn add_target(self, target: &str) -> (r: Self)
        ensures
            r == (BinswapGithubBuilder { targets: r.targets, ..self }),
            r.targets matches Some(ts) && ts.deep_view() == (match self.targets {
                Some(o) => o.deep_view(),
                None => Seq::<Seq<char>>::empty(),
            }).push(target@),
    {
        match self.targets {
            Some(mut ts) => {
                let ghost olddv = ts.deep_view();
                ts.push(String::from_str(target));
                proof {
                    assert(ts.deep_view() =~= olddv.push(target@));
                }
                BinswapGithubBuilder { targets: Some(ts), ..self }
            },
            None => {
                let mut ts: Vec<String> = Vec::new();
                ts.push(String::from_str(target));
                proof {
                    assert(ts.deep_view() =~= Seq::<Seq<char>>::empty().push(target@));
                }
                BinswapGithubBuilder { targets: Some(ts), ..self }
            },
        }
    }

    /// Builds the request. Fails exactly when one of the required fields —
    /// repository author, repository name or binary name — was never set;
    /// the check command defaults to `--help`.
    pub fn build(self) -> (r: Result<BinswapGithub, String>)
        ensures
            r is Ok <==> (self.repo_author is Some && self.repo_name is Some && self.bin_name
                is Some),
            r matches Ok(g) ==> {
                &&& self.repo_author matches Some(x) && g.repo_author == x
                &&& self.repo_name matches Some(x) && g.repo_name == x
                &&& g.asset_name == self.asset_name
                &&& self.bin_name matches Some(x) && g.bin_name == x
                &&& g.version == self.version
                &&& g.no_confirm == self.no_confirm
                &&& g.check_with_cmd@ == (match self.check_with_cmd {
                    Some(c) => c@,
                    None => "--help"@,
                })
                &&& g.no_check_with_cmd == self.no_check_with_cmd
                &&& g.dry_run == self.dry_run
                &&& g.targets == self.targets
            },
            r matches Err(msg) ==> msg@ == (if self.repo_author is None {
                "repo_author is not set"@
            } else if self.repo_name is None {
                "repo_name is not set"@
            } else {
                "bin_name is not set"@
            }),
    {
        let BinswapGithubBuilder {
            repo_author,
            repo_name,
            asset_name,
            bin_name,
            version,
            no_confirm,
            check_with_cmd,
            no_check_with_cmd,
            dry_run,
            targets,
        } = self;
        let repo_author = match repo_author {
            Some(x) => x,
            None => {
                return Err(String::from_str("repo_author is not set"));
            },
        };
        let repo_name = match repo_name {
            Some(x) => x,
            None => {
                return Err(String::from_str("repo_name is not set"));
            },
        };
        let bin_name = match bin_name {
            Some(x) => x,
            None => {
                return Err(String::from_str("bin_name is not set"));
            },
        };
        let check_with_cmd = match check_with_cmd {
            Some(c) => c,
            None => String::from_str("--help"),
        };
        Ok(
            BinswapGithub {
                repo_author,
                repo_name,
                asset_name,
                bin_name,
                version,
                no_confirm,
                check_with_cmd,
                no_check_with_cmd,
                dry_run,
                targets,
            },
        )
    }
}

} // verus!
