//! Handing the child its end of the channel on descriptor 3.
//!
//! Between fork and exec the child must close the broker's endpoint and
//! leave its own endpoint open on descriptor 3, with close-on-exec cleared.
//! The descriptor calls themselves are made by the caller; this module
//! decides which call comes next from the outcome of the last one.
use vstd::prelude::*;

verus! {

/// The descriptor on which the child finds its channel.
pub const CHILD_CHANNEL_FD: i32 = 3;

/// `libc::FD_CLOEXEC`, the close-on-exec bit of the descriptor flags
/// (`0x1` on every Linux target in the libc source).
#[verifier::external_body]
fn fd_cloexec() -> (bit: i32)
    ensures
        bit == 1,
{
    libc::FD_CLOEXEC
}

/// A descriptor call the installation asks for. Each returns -1 on failure.
#[derive(Debug, Clone, Copy, PartialEq, Eq, Structural)]
pub enum FdCall {
    /// `close(fd)`.
    Close { fd: i32 },
    /// `fcntl(fd, F_GETFD)`: returns the descriptor flags.
    GetFlags { fd: i32 },
    /// `fcntl(fd, F_SETFD, flags)`.
    SetFlags { fd: i32, flags: i32 },
    /// `dup3(from, to, 0)`.
    Duplicate { from: i32, to: i32 },
}

/// What to do next.
#[derive(Debug, Clone, Copy, PartialEq, Eq, Structural)]
pub enum InstallAction {
    Call(FdCall),
    /// The channel is installed.
    Done,
    /// The last call failed; report the OS error.
    Failed,
}

/// Which call's outcome the installation awaits.
#[derive(Debug, Clone, Copy, PartialEq, Eq, Structural)]
pub enum InstallStage {
    ClosingParent,
    ReadingFlags,
    WritingFlags,
    Duplicating,
    ClosingChildCopy,
    Finished,
}

/// The installation of the child's channel, given the raw descriptors of
/// the broker's endpoint and the child's endpoint.
pub struct ChannelInstall {
    pub parent: i32,
    pub child: i32,
    pub stage: InstallStage,
}

/// The first call: close the broker's endpoint.
pub open spec fn install_start(parent: i32, child: i32) -> (ChannelInstall, InstallAction) {
    (
        ChannelInstall { parent, child, stage: InstallStage::ClosingParent },
        InstallAction::Call(FdCall::Close { fd: parent }),
    )
}

/// The step after a call returned `result`: any -1 fails the installation;
/// once the broker's endpoint is closed, an endpoint already on descriptor
/// 3 has close-on-exec cleared, any other is duplicated onto 3 and its
/// first copy closed.
pub open spec fn install_step(state: ChannelInstall, result: i32) -> (InstallStage, InstallAction) {
    if result == -1 {
        (InstallStage::Finished, InstallAction::Failed)
    } else {
        match state.stage {
            InstallStage::ClosingParent => if state.child == CHILD_CHANNEL_FD {
                (InstallStage::ReadingFlags, InstallAction::Call(FdCall::GetFlags { fd: CHILD_CHANNEL_FD }))
            } else {
                (
                    InstallStage::Duplicating,
                    InstallAction::Call(FdCall::Duplicate { from: state.child, to: CHILD_CHANNEL_FD }),
                )
            },
            InstallStage::ReadingFlags => (
                InstallStage::WritingFlags,
                InstallAction::Call(FdCall::SetFlags { fd: CHILD_CHANNEL_FD, flags: result & !1i32 }),
            ),
            InstallStage::Duplicating => (
                InstallStage::ClosingChildCopy,
                InstallAction::Call(FdCall::Close { fd: state.child }),
            ),
            _ => (InstallStage::Finished, InstallAction::Done),
        }
    }
}

impl ChannelInstall {
    /// Starts the installation; returns the first call to make.
    pub fn start(parent: i32, child: i32) -> (started: (Self, InstallAction))
        ensures
            started == install_start(parent, child),
    {
        (
            ChannelInstall { parent, child, stage: InstallStage::ClosingParent },
            InstallAction::Call(FdCall::Close { fd: parent }),
        )
    }

    /// Takes the result of the last call and returns what to do next.
    pub fn advance(&mut self, result: i32) -> (action: InstallAction)
        requires
            old(self).stage != InstallStage::Finished,
        ensures
            (final(self).stage, action) == install_step(*old(self), result),
            final(self).parent == old(self).parent,
            final(self).child == old(self).child,
    {
        if result == -1 {
            self.stage = InstallStage::Finished;
            return InstallAction::Failed;
        }
        match self.stage {
            InstallStage::ClosingParent => {
                if self.child == CHILD_CHANNEL_FD {
                    self.stage = InstallStage::ReadingFlags;
                    InstallAction::Call(FdCall::GetFlags { fd: CHILD_CHANNEL_FD })
                } else {
                    self.stage = InstallStage::Duplicating;
                    InstallAction::Call(FdCall::Duplicate { from: self.child, to: CHILD_CHANNEL_FD })
                }
            },
            InstallStage::ReadingFlags => {
                let cloexec = fd_cloexec();
                self.stage = InstallStage::WritingFlags;
                InstallAction::Call(FdCall::SetFlags { fd: CHILD_CHANNEL_FD, flags: result & !cloexec })
            },
            InstallStage::Duplicating => {
                self.stage = InstallStage::ClosingChildCopy;
                InstallAction::Call(FdCall::Close { fd: self.child })
            },
            _ => {
                self.stage = InstallStage::Finished;
                InstallAction::Done
            },
        }
    }
}

/// The state with the descriptors of `state` at `stage`.
pub open spec fn at(state: ChannelInstall, stage: InstallStage) -> ChannelInstall {
    ChannelInstall { parent: state.parent, child: state.child, stage }
}

/// When every call succeeds: the broker's endpoint is closed first; an
/// endpoint already on descriptor 3 keeps its flags but for close-on-exec;
/// any other is duplicated onto 3 and its first copy closed; then the
/// installation is done.
pub proof fn successful_installation(parent: i32, child: i32, flags: i32, r1: i32, r2: i32, r3: i32)
    requires
        flags != -1,
        r1 != -1,
        r2 != -1,
        r3 != -1,
    ensures
        ({
            let (s0, a0) = install_start(parent, child);
            let (st1, a1) = install_step(s0, r1);
            &&& a0 == InstallAction::Call(FdCall::Close { fd: parent })
            &&& child == CHILD_CHANNEL_FD ==> {
                let (st2, a2) = install_step(at(s0, st1), flags);
                let (st3, a3) = install_step(at(s0, st2), r2);
                &&& a1 == InstallAction::Call(FdCall::GetFlags { fd: CHILD_CHANNEL_FD })
                &&& a2 == InstallAction::Call(FdCall::SetFlags { fd: CHILD_CHANNEL_FD, flags: flags & !1i32 })
                &&& a3 == InstallAction::Done
                &&& st3 == InstallStage::Finished
            }
            &&& child != CHILD_CHANNEL_FD ==> {
                let (st2, a2) = install_step(at(s0, st1), r2);
                let (st3, a3) = install_step(at(s0, st2), r3);
                &&& a1 == InstallAction::Call(FdCall::Duplicate { from: child, to: CHILD_CHANNEL_FD })
                &&& a2 == InstallAction::Call(FdCall::Close { fd: child })
                &&& a3 == InstallAction::Done
                &&& st3 == InstallStage::Finished
            }
        }),
{
}

/// A failed call ends the installation at once: no further call is made.
pub proof fn failure_stops_the_installation(state: ChannelInstall)
    ensures
        install_step(state, -1i32) == (InstallStage::Finished, InstallAction::Failed),
{
}

/// Clearing close-on-exec leaves every other descriptor flag as it was.
pub proof fn clearing_cloexec_keeps_other_flags(flags: i32)
    ensures
        (flags & !1i32) & 1i32 == 0,
        (flags & !1i32) | (flags & 1i32) == flags,
{
    assert((flags & !1i32) & 1i32 == 0 && (flags & !1i32) | (flags & 1i32) == flags) by (bit_vector);
}

} // verus!
