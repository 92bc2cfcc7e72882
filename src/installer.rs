//! Keeping the language server's package installed and current.
//!
//! One call that ensures a package is installed runs in up to three steps, each waiting on
//! the host: the installed version is queried, then possibly the latest published version,
//! then possibly an install. The host performs each step and hands its outcome to the
//! matching method here, which records what the session has verified and says what comes
//! next.

use vstd::prelude::*;

verus! {

/// A status the host shows while a package is being checked or fetched.
#[derive(Clone, Copy, Debug, PartialEq, Eq, Structural)]
pub enum InstallStatus {
    CheckingForUpdate,
    Downloading,
}

/// What the host does next in a call that ensures a package is installed.
#[derive(Debug)]
pub enum InstallAction {
    /// Show `CheckingForUpdate`, then query the latest published version.
    QueryLatest,
    /// Show `Downloading`, then install this version.
    Install(String),
    /// The call ends with this result.
    Finish(Result<(), String>),
}

/// The mathematical value of an [`InstallAction`].
pub enum ActionModel {
    QueryLatest,
    Install(Seq<char>),
    Finish(Result<(), Seq<char>>),
}

impl View for InstallAction {
    type V = ActionModel;

    open spec fn view(&self) -> ActionModel {
        match self {
            InstallAction::QueryLatest => ActionModel::QueryLatest,
            InstallAction::Install(v) => ActionModel::Install(v@),
            InstallAction::Finish(Ok(())) => ActionModel::Finish(Ok(())),
            InstallAction::Finish(Err(e)) => ActionModel::Finish(Err(e@)),
        }
    }
}

/// The view of a version that may be absent.
pub open spec fn version_model(v: Option<String>) -> Option<Seq<char>> {
    match v {
        Some(s) => Some(s@),
        None => None,
    }
}

/// The view of what the query for the installed version returned.
pub open spec fn installed_model(r: Result<Option<String>, String>) -> Result<
    Option<Seq<char>>,
    Seq<char>,
> {
    match r {
        Ok(v) => Ok(version_model(v)),
        Err(e) => Err(e@),
    }
}

/// The view of what the query for the latest version returned.
pub open spec fn latest_model(r: Result<String, String>) -> Result<Seq<char>, Seq<char>> {
    match r {
        Ok(v) => Ok(v@),
        Err(e) => Err(e@),
    }
}

/// The view of what an install returned.
pub open spec fn outcome_model(r: Result<(), String>) -> Result<(), Seq<char>> {
    match r {
        Ok(()) => Ok(()),
        Err(e) => Err(e@),
    }
}

/// The step after the installed version of `package` is known: a failed query ends the
/// call with its error; an installed package already verified this session ends it in
/// success; anything else goes on to the latest version.
pub open spec fn after_installed_query(
    verified: Set<Seq<char>>,
    package: Seq<char>,
    installed: Result<Option<Seq<char>>, Seq<char>>,
) -> ActionModel {
    match installed {
        Err(e) => ActionModel::Finish(Err(e)),
        Ok(v) => if v is Some && verified.contains(package) {
            ActionModel::Finish(Ok(()))
        } else {
            ActionModel::QueryLatest
        },
    }
}

/// The step after the latest version is known: a failed query ends the call with its
/// error, even when some version is installed; a latest version other than the installed
/// one (or any, when none is) is installed; an installed version equal to it ends the call
/// in success.
pub open spec fn after_latest_query(
    installed: Option<Seq<char>>,
    latest: Result<Seq<char>, Seq<char>>,
) -> ActionModel {
    match latest {
        Err(e) => ActionModel::Finish(Err(e)),
        Ok(l) => if installed == Some(l) {
            ActionModel::Finish(Ok(()))
        } else {
            ActionModel::Install(l)
        },
    }
}

/// The step after an install: success ends the call in success; a failed install ends it
/// with its error when nothing was installed before, and in success with the earlier
/// version otherwise.
pub open spec fn after_install(installed: Option<Seq<char>>, outcome: Result<(), Seq<char>>) -> ActionModel {
    match outcome {
        Ok(()) => ActionModel::Finish(Ok(())),
        Err(e) => if installed is None {
            ActionModel::Finish(Err(e))
        } else {
            ActionModel::Finish(Ok(()))
        },
    }
}

/// The verified packages after a step that led to `next`: a call that ends in success
/// records its package.
pub open spec fn verified_after(verified: Set<Seq<char>>, package: Seq<char>, next: ActionModel) -> Set<
    Seq<char>,
> {
    if next == ActionModel::Finish(Ok(())) {
        verified.insert(package)
    } else {
        verified
    }
}

/// The result of one whole call that ensures `package` is installed, and the verified
/// packages after it, when the host's queries and install give these outcomes. An outcome
/// that the call never asks for is not looked at.
pub open spec fn call_outcome(
    verified: Set<Seq<char>>,
    package: Seq<char>,
    installed: Result<Option<Seq<char>>, Seq<char>>,
    latest: Result<Seq<char>, Seq<char>>,
    install: Result<(), Seq<char>>,
) -> (Result<(), Seq<char>>, Set<Seq<char>>) {
    match after_installed_query(verified, package, installed) {
        ActionModel::Finish(r) => (r, verified),
        _ => {
            let current = match installed {
                Ok(v) => v,
                Err(_) => None,
            };
            let next = after_latest_query(current, latest);
            match next {
                ActionModel::Install(_) => {
                    let last = after_install(current, install);
                    (finished_with(last), verified_after(verified, package, last))
                },
                _ => (finished_with(next), verified_after(verified, package, next)),
            }
        },
    }
}

/// The result carried by a final step.
pub open spec fn finished_with(a: ActionModel) -> Result<(), Seq<char>> {
    match a {
        ActionModel::Finish(r) => r,
        _ => Ok(()),
    }
}

/// The version that such a call asks the host to install, if any.
pub open spec fn call_install_request(
    verified: Set<Seq<char>>,
    package: Seq<char>,
    installed: Result<Option<Seq<char>>, Seq<char>>,
    latest: Result<Seq<char>, Seq<char>>,
) -> Option<Seq<char>> {
    match after_installed_query(verified, package, installed) {
        ActionModel::QueryLatest => match after_latest_query(installed->Ok_0, latest) {
            ActionModel::Install(l) => Some(l),
            _ => None,
        },
        _ => None,
    }
}

/// A call succeeds exactly when it leaves its package recorded as verified, and a failed
/// call changes nothing that the session has verified.
pub proof fn lemma_success_records_package(
    verified: Set<Seq<char>>,
    package: Seq<char>,
    installed: Result<Option<Seq<char>>, Seq<char>>,
    latest: Result<Seq<char>, Seq<char>>,
    install: Result<(), Seq<char>>,
)
    ensures
        ({
            let (r, after) = call_outcome(verified, package, installed, latest, install);
            &&& r is Ok ==> after == verified.insert(package)
            &&& r is Err ==> after == verified
        }),
{
    if after_installed_query(verified, package, installed) == ActionModel::Finish(Ok(())) {
        assert(verified.insert(package) =~= verified);
    }
}

/// Once a call for `package` has succeeded, a later call in the same session whose query
/// finds some version installed ends in success at once: it queries no latest version and
/// installs nothing.
pub proof fn lemma_fast_path_after_success(
    verified: Set<Seq<char>>,
    package: Seq<char>,
    installed: Result<Option<Seq<char>>, Seq<char>>,
    latest: Result<Seq<char>, Seq<char>>,
    install: Result<(), Seq<char>>,
    version: Seq<char>,
)
    requires
        call_outcome(verified, package, installed, latest, install).0 is Ok,
    ensures
        after_installed_query(
            call_outcome(verified, package, installed, latest, install).1,
            package,
            Ok(Some(version)),
        ) == ActionModel::Finish(Ok(())),
{
    lemma_success_records_package(verified, package, installed, latest, install);
}

/// When the installed version differs from the latest one and the package is not yet
/// verified, the call asks to install exactly the latest version; it succeeds whether or
/// not that install does, and records the package.
pub proof fn lemma_upgrade_degrades_gracefully(
    verified: Set<Seq<char>>,
    package: Seq<char>,
    current: Seq<char>,
    latest: Seq<char>,
    install: Result<(), Seq<char>>,
)
    requires
        !verified.contains(package),
        current != latest,
    ensures
        call_install_request(verified, package, Ok(Some(current)), Ok(latest)) == Some(latest),
        call_outcome(verified, package, Ok(Some(current)), Ok(latest), install) == (
        Ok::<(), Seq<char>>(()),
        verified.insert(package),
        ),
{
}

/// When the installed version is the latest one, the call installs nothing, succeeds and
/// records the package.
pub proof fn lemma_current_needs_no_install(
    verified: Set<Seq<char>>,
    package: Seq<char>,
    latest: Seq<char>,
    install: Result<(), Seq<char>>,
)
    ensures
        call_install_request(verified, package, Ok(Some(latest)), Ok(latest)) is None,
        call_outcome(verified, package, Ok(Some(latest)), Ok(latest), install).0 is Ok,
        call_outcome(verified, package, Ok(Some(latest)), Ok(latest), install).1.contains(package),
{
    lemma_success_records_package(verified, package, Ok(Some(latest)), Ok(latest), install);
}

/// With nothing installed, a failed install fails the call with its error and records
/// nothing.
pub proof fn lemma_first_install_failure_is_fatal(
    verified: Set<Seq<char>>,
    package: Seq<char>,
    latest: Seq<char>,
    error: Seq<char>,
)
    ensures
        call_install_request(verified, package, Ok(None), Ok(latest)) == Some(latest),
        call_outcome(verified, package, Ok(None), Ok(latest), Err(error)) == (
        Err::<(), Seq<char>>(error),
        verified,
        ),
{
}

/// A failed query for the latest version fails the call with its error, even when some
/// version is installed, unless the package was already verified in this session.
pub proof fn lemma_latest_query_failure_is_fatal(
    verified: Set<Seq<char>>,
    package: Seq<char>,
    installed: Option<Seq<char>>,
    error: Seq<char>,
    install: Result<(), Seq<char>>,
)
    requires
        !(installed is Some && verified.contains(package)),
    ensures
        call_install_request(verified, package, Ok(installed), Err(error)) is None,
        call_outcome(verified, package, Ok(installed), Err(error), install) == (
        Err::<(), Seq<char>>(error),
        verified,
        ),
{
}

/// The extension's state for one session: the packages verified as installed so far.
pub struct AngularExtension {
    installed: Vec<String>,
}

impl View for AngularExtension {
    type V = Set<Seq<char>>;

    closed spec fn view(&self) -> Set<Seq<char>> {
        Set::new(|p: Seq<char>| exists|i: int| 0 <= i < self.installed@.len() && self.installed@[i]@ == p)
    }
}

impl InstallAction {
    /// The status the host shows before it performs this action.
    pub fn status(&self) -> (r: Option<InstallStatus>)
        ensures
            r == match self@ {
                ActionModel::QueryLatest => Some(InstallStatus::CheckingForUpdate),
                ActionModel::Install(_) => Some(InstallStatus::Downloading),
                ActionModel::Finish(_) => None,
            },
    {
        match self {
            InstallAction::QueryLatest => Some(InstallStatus::CheckingForUpdate),
            InstallAction::Install(_) => Some(InstallStatus::Downloading),
            InstallAction::Finish(_) => None,
        }
    }
}

impl AngularExtension {
    /// A session in which nothing is verified yet.
    pub fn new() -> (r: Self)
        ensures
            r@ == Set::<Seq<char>>::empty(),
    {
        let r = AngularExtension { installed: Vec::new() };
        assert(r@ =~= Set::<Seq<char>>::empty());
        r
    }

    /// Whether `package` was verified as installed in this session.
    pub fn is_verified(&self, package: &str) -> (r: bool)
        ensures
            r == self@.contains(package@),
    {
        let p = package.to_owned();
        let mut i: usize = 0;
        while i < self.installed.len()
            invariant
                0 <= i <= self.installed@.len(),
                p@ == package@,
                forall|j: int| 0 <= j < i ==> self.installed@[j]@ != p@,
            decreases self.installed@.len() - i,
        {
            if self.installed[i] == p {
                return true;
            }
            i += 1;
        }
        false
    }

    fn mark_verified(&mut self, package: &str)
        ensures
            final(self)@ == old(self)@.insert(package@),
    {
        if !self.is_verified(package) {
            self.installed.push(package.to_owned());
            assert(self.installed@[self.installed@.len() - 1]@ == package@);
            assert forall|p: Seq<char>| #[trigger] old(self)@.contains(p) implies self@.contains(p) by {
                let i = choose|i: int| 0 <= i < old(self).installed@.len() && old(self).installed@[i]@ == p;
                assert(self.installed@[i] == old(self).installed@[i]);
            }
            assert forall|p: Seq<char>| #[trigger] self@.contains(p) implies old(self)@.insert(package@).contains(p) by {
                let i = choose|i: int| 0 <= i < self.installed@.len() && self.installed@[i]@ == p;
                if i < old(self).installed@.len() {
                    assert(old(self).installed@[i] == self.installed@[i]);
                }
            }
        }
        assert(self@ =~= old(self)@.insert(package@));
    }

    /// The step that follows the query for the installed version of `package`.
    pub fn on_installed_version(&self, package: &str, installed: &Result<Option<String>, String>) -> (r:
        InstallAction)
        ensures
            r@ == after_installed_query(self@, package@, installed_model(*installed)),
    {
        match installed {
            Err(e) => InstallAction::Finish(Err(e.clone())),
            Ok(v) => {
                if v.is_some() && self.is_verified(package) {
                    InstallAction::Finish(Ok(()))
                } else {
                    InstallAction::QueryLatest
                }
            },
        }
    }

    /// The step that follows the query for the latest version of `package`, where
    /// `installed` is what the query for the installed version found.
    pub fn on_latest_version(
        &mut self,
        package: &str,
        installed: &Option<String>,
        latest: &Result<String, String>,
    ) -> (r: InstallAction)
        ensures
            r@ == after_latest_query(version_model(*installed), latest_model(*latest)),
            final(self)@ == verified_after(old(self)@, package@, r@),
    {
        match latest {
            Err(e) => InstallAction::Finish(Err(e.clone())),
            Ok(l) => {
                let current = match installed {
                    Some(v) => *v == *l,
                    None => false,
                };
                if current {
                    self.mark_verified(package);
                    InstallAction::Finish(Ok(()))
                } else {
                    InstallAction::Install(l.clone())
                }
            },
        }
    }

    /// The step that follows an install of `package`, where `installed` is what the query
    /// for the installed version found before it.
    pub fn on_install_result(
        &mut self,
        package: &str,
        installed: &Option<String>,
        outcome: &Result<(), String>,
    ) -> (r: InstallAction)
        ensures
            r@ == after_install(version_model(*installed), outcome_model(*outcome)),
            final(self)@ == verified_after(old(self)@, package@, r@),
    {
        match outcome {
            Err(e) if installed.is_none() => InstallAction::Finish(Err(e.clone())),
            _ => {
                self.mark_verified(package);
                InstallAction::Finish(Ok(()))
            },
        }
    }
}

} // verus!
