use vstd::prelude::*;

verus! {

/// One irreversible step of the privilege-reduction sequence.
#[derive(Clone, Copy, PartialEq, Eq, Structural, Debug)]
pub enum Step {
    /// Supplementary groups cleared and group identity set to the real group.
    DropGroups,
    /// Filesystem root confined to the device directory.
    ConfineRoot,
    /// User identity set to the real, unprivileged user.
    DropIdentity,
    /// Restrictive execution sandbox entered.
    EnterSandbox,
}

/// Which step of the sequence failed. Every one is fatal: the process
/// must terminate rather than run with partial privilege reduction.
#[derive(Clone, Copy, PartialEq, Eq, Structural, Debug)]
pub enum PrivError {
    GroupDropFailed,
    ConfineFailed,
    IdentityDropFailed,
    SandboxFailed,
}

/// The full sequence run when the process starts with elevated identity.
pub open spec fn elevated_sequence() -> Seq<Step> {
    seq![Step::DropGroups, Step::ConfineRoot, Step::DropIdentity, Step::EnterSandbox]
}

/// The sequence run when the process is already unprivileged: only the
/// sandbox entry, so that both starts end in the same confinement.
pub open spec fn unelevated_sequence() -> Seq<Step> {
    seq![Step::EnterSandbox]
}

/// The states a boundary can ever be in: each is a stop of one of the
/// two fixed sequences, with no skip and no reorder possible.
pub open spec fn lawful(trace: Seq<Step>) -> bool {
    ||| trace == Seq::<Step>::empty()
    ||| trace == seq![Step::DropGroups]
    ||| trace == seq![Step::DropGroups, Step::ConfineRoot]
    ||| trace == seq![Step::DropGroups, Step::ConfineRoot, Step::DropIdentity]
    ||| trace == elevated_sequence()
    ||| trace == unelevated_sequence()
}

/// In any lawful trace the identity drop comes only after the group
/// drop and the root confinement, in that order: state never reaches
/// the identity drop without first completing both.
pub proof fn lemma_identity_drop_is_last(trace: Seq<Step>)
    requires
        lawful(trace),
        trace.contains(Step::DropIdentity),
    ensures
        trace.len() >= 3,
        trace[0] == Step::DropGroups,
        trace[1] == Step::ConfineRoot,
        trace[2] == Step::DropIdentity,
{
    let i = choose|i: int| 0 <= i < trace.len() && trace[i] == Step::DropIdentity;
    assert(trace.len() >= 3);
}

/// Relies on nix's geteuid: the effective user identity, as a raw id.
#[verifier::external_body]
fn sys_effective_uid() -> (r: u32) {
    nix::unistd::geteuid().as_raw()
}

/// Relies on nix's getuid: the real user identity, as a raw id.
#[verifier::external_body]
fn sys_real_uid() -> (r: u32) {
    nix::unistd::getuid().as_raw()
}

/// Relies on nix's getgid: the real group identity, as a raw id.
#[verifier::external_body]
fn sys_real_gid() -> (r: u32) {
    nix::unistd::getgid().as_raw()
}

/// Relies on nix's setgroups: sets the supplementary group list to empty.
#[verifier::external_body]
fn sys_clear_groups() -> (r: Result<(), ()>) {
    nix::unistd::setgroups(&[]).map_err(|_| ())
}

/// Relies on nix's setgid: sets the group identity to the given id.
#[verifier::external_body]
fn sys_set_gid(gid: u32) -> (r: Result<(), ()>) {
    nix::unistd::setgid(nix::unistd::Gid::from_raw(gid)).map_err(|_| ())
}

/// Relies on nix's setuid: sets the user identity to the given id.
#[verifier::external_body]
fn sys_set_uid(uid: u32) -> (r: Result<(), ()>) {
    nix::unistd::setuid(nix::unistd::Uid::from_raw(uid)).map_err(|_| ())
}

/// Relies on nix's chdir: changes the working directory to `path`.
#[verifier::external_body]
fn sys_chdir(path: &str) -> (r: Result<(), ()>) {
    nix::unistd::chdir(path).map_err(|_| ())
}

/// Relies on nix's chroot: confines the filesystem root to `path`.
#[verifier::external_body]
fn sys_chroot(path: &str) -> (r: Result<(), ()>) {
    nix::unistd::chroot(path).map_err(|_| ())
}

/// Relies on rusty-sandbox's Sandbox::sandbox_this_process: asks the
/// platform to restrict this process's further system calls.
#[verifier::external_body]
fn sys_enter_sandbox() -> (r: Result<(), ()>) {
    match rusty_sandbox::Sandbox::new().sandbox_this_process() {
        Ok(_) => Ok(()),
        Err(()) => Err(()),
    }
}

/// The one-shot privilege-reduction boundary. It records, as a trace of
/// completed steps, how far the irreversible sequence has advanced;
/// the trace never skips or reorders a step, and never advances past a
/// failed one.
pub struct PrivilegeBoundary {
    done: Ghost<Seq<Step>>,
}

impl PrivilegeBoundary {
    /// The steps completed so far, in the order they were performed.
    pub closed spec fn completed(&self) -> Seq<Step> {
        self.done@
    }

    /// A fresh boundary: nothing reduced yet.
    pub fn begin() -> (b: PrivilegeBoundary)
        ensures
            b.completed() == Seq::<Step>::empty(),
    {
        PrivilegeBoundary { done: Ghost(Seq::empty()) }
    }

    /// Clears supplementary group memberships, then sets the group
    /// identity to the real group, while still privileged enough to do so.
    fn drop_groups(&mut self) -> (r: Result<(), PrivError>)
        requires
            old(self).completed() == Seq::<Step>::empty(),
        ensures
            r is Ok ==> final(self).completed() == seq![Step::DropGroups],
            r is Err ==> final(self).completed() == old(self).completed() && r == Err::<
                (),
                PrivError,
            >(PrivError::GroupDropFailed),
    {
        if sys_clear_groups().is_err() {
            return Err(PrivError::GroupDropFailed);
        }
        let gid = sys_real_gid();
        if sys_set_gid(gid).is_err() {
            return Err(PrivError::GroupDropFailed);
        }
        self.done = Ghost(self.done@.push(Step::DropGroups));
        proof {
            assert(self.done@ =~= seq![Step::DropGroups]);
        }
        Ok(())
    }

    /// Confines the filesystem root to the directory that holds only
    /// non-executable device nodes, before the final identity drop
    /// removes the ability to do so.
    fn confine_root(&mut self) -> (r: Result<(), PrivError>)
        requires
            old(self).completed() == seq![Step::DropGroups],
        ensures
            r is Ok ==> final(self).completed() == seq![
                Step::DropGroups,
                Step::ConfineRoot,
            ],
            r is Err ==> final(self).completed() == old(self).completed() && r == Err::<
                (),
                PrivError,
            >(PrivError::ConfineFailed),
    {
        if sys_chdir("/dev/input").is_err() {
            return Err(PrivError::ConfineFailed);
        }
        if sys_chroot("/dev/input").is_err() {
            return Err(PrivError::ConfineFailed);
        }
        self.done = Ghost(self.done@.push(Step::ConfineRoot));
        proof {
            assert(self.done@ =~= seq![Step::DropGroups, Step::ConfineRoot]);
        }
        Ok(())
    }

    /// Irreversibly sets the user identity to the real, unprivileged
    /// user. After this, no earlier step could be performed any more.
    fn drop_identity(&mut self) -> (r: Result<(), PrivError>)
        requires
            old(self).completed() == seq![Step::DropGroups, Step::ConfineRoot],
        ensures
            r is Ok ==> final(self).completed() == seq![
                Step::DropGroups,
                Step::ConfineRoot,
                Step::DropIdentity,
            ],
            r is Err ==> final(self).completed() == old(self).completed() && r == Err::<
                (),
                PrivError,
            >(PrivError::IdentityDropFailed),
    {
        let uid = sys_real_uid();
        if sys_set_uid(uid).is_err() {
            return Err(PrivError::IdentityDropFailed);
        }
        self.done = Ghost(self.done@.push(Step::DropIdentity));
        proof {
            assert(self.done@ =~= seq![Step::DropGroups, Step::ConfineRoot, Step::DropIdentity]);
        }
        Ok(())
    }

    /// Enters the restrictive execution sandbox. Run either directly
    /// (process already unprivileged) or as the last step after the
    /// identity drop, so both starts end in the same confinement.
    fn enter_sandbox(&mut self) -> (r: Result<(), PrivError>)
        requires
            old(self).completed() == Seq::<Step>::empty() || old(self).completed() == seq![
                Step::DropGroups,
                Step::ConfineRoot,
                Step::DropIdentity,
            ],
        ensures
            r is Ok ==> final(self).completed() == old(
                self,
            ).completed().push(Step::EnterSandbox),
            r is Err ==> final(self).completed() == old(self).completed() && r == Err::<
                (),
                PrivError,
            >(PrivError::SandboxFailed),
    {
        if sys_enter_sandbox().is_err() {
            return Err(PrivError::SandboxFailed);
        }
        self.done = Ghost(self.done@.push(Step::EnterSandbox));
        Ok(())
    }

    /// The one-shot, ordered, irreversible privilege reduction, run
    /// after all privileged resources are open and before any script
    /// code runs. With elevated identity: group drop, then root
    /// confinement, then identity drop; then — elevated or not — the
    /// sandbox entry. A failed step halts the sequence where it stands:
    /// the trace never advances past it, and in particular a failed
    /// confinement leaves the user identity untouched. Any error is
    /// fatal to the process.
    pub fn reduce_privileges(&mut self) -> (r: Result<(), PrivError>)
        requires
            old(self).completed() == Seq::<Step>::empty(),
        ensures
            lawful(final(self).completed()),
            r is Ok ==> final(self).completed() == elevated_sequence()
                || final(self).completed() == unelevated_sequence(),
            r == Err::<(), PrivError>(PrivError::GroupDropFailed) ==> final(self).completed()
                == Seq::<Step>::empty(),
            r == Err::<(), PrivError>(PrivError::ConfineFailed) ==> final(self).completed()
                == seq![Step::DropGroups],
            r == Err::<(), PrivError>(PrivError::IdentityDropFailed) ==> final(self).completed()
                == seq![Step::DropGroups, Step::ConfineRoot],
            r == Err::<(), PrivError>(PrivError::SandboxFailed) ==> final(self).completed()
                == Seq::<Step>::empty() || final(self).completed() == seq![
                Step::DropGroups,
                Step::ConfineRoot,
                Step::DropIdentity,
            ],
            r is Err ==> !final(self).completed().contains(Step::EnterSandbox),
            r == Err::<(), PrivError>(PrivError::ConfineFailed) ==> !final(
                self
            ).completed().contains(Step::DropIdentity),
    {
        let elevated = sys_effective_uid() == 0;
        if elevated {
            if let Err(e) = self.drop_groups() {
                return Err(e);
            }
            if let Err(e) = self.confine_root() {
                return Err(e);
            }
            if let Err(e) = self.drop_identity() {
                return Err(e);
            }
            if let Err(e) = self.enter_sandbox() {
                return Err(e);
            }
            proof {
                assert(self.completed() =~= elevated_sequence());
            }
            Ok(())
        } else {
            if let Err(e) = self.enter_sandbox() {
                return Err(e);
            }
            proof {
                assert(self.completed() =~= unelevated_sequence());
            }
            Ok(())
        }
    }
}

} // verus!
