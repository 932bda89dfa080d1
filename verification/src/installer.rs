//! Version reconciliation for the wrapped npm package.
//!
//! `ensure_installed` is a short conversation with the package registry:
//! look up the installed version, perhaps look up the latest version,
//! perhaps run an install. The registry itself lives outside; the caller
//! performs each query and hands its answer to the functions here, which
//! make every decision and keep the in-process cache. A run goes
//! `ensure_begin` → (if asked) `install_plan` → `ensure_finish`.

use vstd::prelude::*;
use crate::errors::Error;
use crate::text::str_eq;

verus! {

/// The character sequences of an optional version string.
pub open spec fn opt_chars(v: Option<String>) -> Option<Seq<char>> {
    match v {
        Some(s) => Some(s@),
        None => None,
    }
}

/// The fast path: some version is installed and the cache already records
/// the package, so the latest-version endpoint need not be consulted.
pub open spec fn spec_fast_path(
    cache: Set<Seq<char>>,
    package: Seq<char>,
    installed: Option<Seq<char>>,
) -> bool {
    installed is Some && cache.contains(package)
}

/// An install is required exactly when no version is installed or the
/// installed version differs from the latest.
pub open spec fn spec_install_required(installed: Option<Seq<char>>, latest: Seq<char>) -> bool {
    installed != Some(latest)
}

/// Whether a run that reached its final step succeeds: always, unless the
/// install attempt failed while no prior version was present.
pub open spec fn spec_ensure_ok(installed: Option<Seq<char>>, install_failed: bool) -> bool {
    !install_failed || installed is Some
}

/// The cache a completed run leaves behind: the package is recorded on
/// every successful run and only on those.
pub open spec fn spec_cache_after(
    cache: Set<Seq<char>>,
    package: Seq<char>,
    installed: Option<Seq<char>>,
    install_failed: bool,
) -> Set<Seq<char>> {
    if spec_ensure_ok(installed, install_failed) {
        cache.insert(package)
    } else {
        cache
    }
}

/// What the caller must do after `ensure_begin`.
pub enum EnsureStep {
    /// The run is finished; the latest-version endpoint was not needed.
    Complete(Result<(), Error>),
    /// The registry's latest-version endpoint must be consulted next.
    NeedLatest,
}

/// What the caller must do after `install_plan`.
pub enum InstallPlan {
    /// The latest-version query failed; the run fails with this error.
    Fail(Error),
    /// An install of the named version must be attempted.
    RunInstall(String),
    /// The installed version is already the latest; nothing to install.
    UpToDate,
}

/// The package installer: decides each step of a run and owns the
/// in-process cache of packages confirmed installed at the latest checked
/// version. The cache starts empty at process start, only grows, and is
/// never persisted.
pub struct Installer {
    installed: Vec<String>,
}

impl View for Installer {
    type V = Set<Seq<char>>;

    /// The set of package identifiers the cache records.
    closed spec fn view(&self) -> Set<Seq<char>> {
        Set::new(
            |p: Seq<char>|
                exists|i: int| 0 <= i < self.installed@.len() && self.installed@[i]@ == p,
        )
    }
}

impl Installer {
    /// A fresh installer with an empty cache.
    pub fn new() -> (r: Installer)
        ensures
            r@ == Set::<Seq<char>>::empty(),
    {
        let r = Installer { installed: Vec::new() };
        proof {
            assert(r@ =~= Set::<Seq<char>>::empty());
        }
        r
    }

    /// Whether the cache records the package.
    pub fn is_recorded(&self, package: &str) -> (b: bool)
        ensures
            b == self@.contains(package@),
    {
        let n = self.installed.len();
        let mut i: usize = 0;
        while i < n
            invariant
                n == self.installed@.len(),
                i <= n,
                forall|j: int| 0 <= j < i ==> self.installed@[j]@ != package@,
            decreases n - i,
        {
            if str_eq(self.installed[i].as_str(), package) {
                return true;
            }
            i += 1;
        }
        false
    }

    /// Adds the package to the cache.
    fn record(&mut self, package: &str)
        ensures
            final(self)@ == old(self)@.insert(package@),
    {
        self.installed.push(package.to_owned());
        proof {
            let oldseq = old(self).installed@;
            let newseq = self.installed@;
            assert forall|p: Seq<char>| old(self)@.insert(package@).contains(p) implies self@.contains(
                p,
            ) by {
                if p == package@ {
                    assert(newseq[oldseq.len() as int]@ == p);
                } else {
                    let i = choose|i: int| 0 <= i < oldseq.len() && oldseq[i]@ == p;
                    assert(newseq[i]@ == p);
                }
            }
            assert forall|p: Seq<char>| self@.contains(p) implies old(self)@.insert(
                package@,
            ).contains(p) by {
                let i = choose|i: int| 0 <= i < newseq.len() && newseq[i]@ == p;
                if i < oldseq.len() {
                    assert(oldseq[i]@ == p);
                } else {
                    assert(p == package@);
                }
            }
            assert(self@ =~= old(self)@.insert(package@));
        }
    }

    /// First step of a run, fed the registry's answer about the installed
    /// version. A failed query fails the run; the fast path completes it at
    /// once; otherwise the caller must fetch the latest version and go on
    /// with `install_plan`.
    pub fn ensure_begin(
        &self,
        package: &str,
        installed_version: &Result<Option<String>, String>,
    ) -> (r: EnsureStep)
        ensures
            *installed_version matches Err(m) ==> (r matches EnsureStep::Complete(
                Err(Error::RegistryQueryFailed(mm)),
            ) && mm@ == m@),
            (*installed_version matches Ok(iv) && spec_fast_path(self@, package@, opt_chars(iv)))
                ==> r matches EnsureStep::Complete(Ok(())),
            (*installed_version matches Ok(iv) && !spec_fast_path(
                self@,
                package@,
                opt_chars(iv),
            )) ==> r is NeedLatest,
    {
        match installed_version {
            Err(m) => EnsureStep::Complete(Err(Error::RegistryQueryFailed(m.clone()))),
            Ok(iv) => {
                if iv.is_some() && self.is_recorded(package) {
                    EnsureStep::Complete(Ok(()))
                } else {
                    EnsureStep::NeedLatest
                }
            },
        }
    }

    /// Final step of a run. `install_failure` carries the message of a
    /// failed install attempt, `None` when no install was attempted or it
    /// succeeded. A failure is tolerated exactly when some version was
    /// already installed: stale-but-present beats failing outright. The
    /// package is recorded on success and only then.
    pub fn ensure_finish(
        &mut self,
        package: &str,
        installed_version: &Option<String>,
        install_failure: Option<String>,
    ) -> (r: Result<(), Error>)
        ensures
            final(self)@ == spec_cache_after(
                old(self)@,
                package@,
                opt_chars(*installed_version),
                install_failure is Some,
            ),
            r is Ok == spec_ensure_ok(opt_chars(*installed_version), install_failure is Some),
            r is Ok ==> final(self)@.contains(package@),
            install_failure matches Some(fm) ==> (*installed_version is None ==> (r matches Err(
                Error::InstallFailed(m),
            ) && m@ == fm@)),
    {
        match install_failure {
            Some(msg) => {
                if installed_version.is_none() {
                    Err(Error::InstallFailed(msg))
                } else {
                    self.record(package);
                    Ok(())
                }
            },
            None => {
                self.record(package);
                Ok(())
            },
        }
    }
}

/// Middle step of a run, fed the registry's answer about the latest
/// version. A failed query fails the run; a missing or out-of-date
/// installed version calls for an install of the latest; otherwise nothing
/// is to be installed.
pub fn install_plan(
    installed_version: &Option<String>,
    latest: &Result<String, String>,
) -> (r: InstallPlan)
    ensures
        *latest matches Err(m) ==> (r matches InstallPlan::Fail(Error::RegistryQueryFailed(mm))
            && mm@ == m@),
        *latest matches Ok(l) ==> (spec_install_required(opt_chars(*installed_version), l@)
            ==> (r matches InstallPlan::RunInstall(v) && v@ == l@)),
        *latest matches Ok(l) ==> (!spec_install_required(opt_chars(*installed_version), l@)
            ==> r is UpToDate),
{
    match latest {
        Err(m) => InstallPlan::Fail(Error::RegistryQueryFailed(m.clone())),
        Ok(l) => {
            match installed_version {
                Some(v) => {
                    if str_eq(v.as_str(), l.as_str()) {
                        InstallPlan::UpToDate
                    } else {
                        InstallPlan::RunInstall(l.clone())
                    }
                },
                None => InstallPlan::RunInstall(l.clone()),
            }
        },
    }
}

/// After any successful run, the package is recorded: the cache the run
/// leaves behind contains it.
pub proof fn lemma_success_records_package(
    cache: Set<Seq<char>>,
    package: Seq<char>,
    installed: Option<Seq<char>>,
    install_failed: bool,
)
    requires
        spec_ensure_ok(installed, install_failed),
    ensures
        spec_cache_after(cache, package, installed, install_failed).contains(package),
{
}

/// Idempotence: a successful run records the package, so a later run that
/// again finds some version installed meets the fast path and — by
/// `ensure_begin`'s contract — completes without consulting the
/// latest-version endpoint a second time.
pub proof fn lemma_second_run_takes_fast_path(
    cache: Set<Seq<char>>,
    package: Seq<char>,
    installed: Option<Seq<char>>,
    install_failed: bool,
    installed_again: Seq<char>,
)
    requires
        spec_ensure_ok(installed, install_failed),
    ensures
        spec_fast_path(
            spec_cache_after(cache, package, installed, install_failed),
            package,
            Some(installed_again),
        ),
{
}

/// Error propagation: when no version was installed and the install attempt
/// fails, the run fails and the cache is left exactly as it was, so the
/// package is not recorded.
pub proof fn lemma_failed_fresh_install_propagates(cache: Set<Seq<char>>, package: Seq<char>)
    ensures
        !spec_ensure_ok(Option::<Seq<char>>::None, true),
        spec_cache_after(cache, package, Option::<Seq<char>>::None, true) == cache,
{
}

/// Tolerant recovery: when some version was installed and the install
/// attempt fails, the run still succeeds and the package is recorded.
pub proof fn lemma_stale_install_tolerated(
    cache: Set<Seq<char>>,
    package: Seq<char>,
    prior: Seq<char>,
)
    ensures
        spec_ensure_ok(Some(prior), true),
        spec_cache_after(cache, package, Some(prior), true).contains(package),
{
}

} // verus!
