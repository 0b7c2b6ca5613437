use vstd::prelude::*;
use crate::syscall::{checked_status, nonblock_flag};

verus! {

/// Where an `open` run stands: which system operation it waits on, and what it
/// has learned so far.
#[derive(Debug, Clone, Copy, PartialEq, Eq, Structural)]
pub enum OpenState {
    /// The pty allocation and fork is under way.
    Forking,
    /// In the parent: the master's file status flags are being queried.
    QueryingFlags { master: i32 },
    /// In the parent: `flags` are being set on the master.
    SettingFlags { master: i32, flags: i32 },
    /// In the parent: `flags` are set; the master is being registered with the
    /// scheduler's readiness notification.
    Registering { master: i32, flags: i32 },
    /// The run is over.
    Finished,
}

/// What the operating system or the scheduler answered to the last action.
#[derive(Debug, Clone, Copy, PartialEq, Eq, Structural)]
pub enum OpenEvent {
    /// `forkpty` returned `ret`, and wrote `master` on the parent side.
    Forked { ret: i32, master: i32 },
    /// The flag query returned `ret`: the flags, or a negative error report.
    FlagsQueried { ret: i32 },
    /// The flag update returned `ret`, negative on error.
    FlagsSet { ret: i32 },
    /// The registration with the scheduler succeeded or failed.
    Registered { ok: bool },
}

/// What the caller has to do next.
#[derive(Debug, Clone, Copy, PartialEq, Eq, Structural)]
pub enum OpenAction {
    /// Query the file status flags of `fd`.
    QueryFlags { fd: i32 },
    /// Set the file status flags of `fd` to `flags`.
    SetFlags { fd: i32, flags: i32 },
    /// Register `fd` with the scheduler's readiness notification.
    Register { fd: i32 },
    /// Done in the parent: share `master` between one reader and one writer.
    Parent { master: i32 },
    /// Done in the child: hand control back to the caller.
    Child,
    /// Done: report the failure, closing `close` first where it names a
    /// descriptor, so that none is left behind.
    Fail { close: Option<i32> },
}

/// The master descriptor that a state holds, if any.
pub open spec fn held_master(s: OpenState) -> Option<i32> {
    match s {
        OpenState::QueryingFlags { master } => Some(master),
        OpenState::SettingFlags { master, .. } => Some(master),
        OpenState::Registering { master, .. } => Some(master),
        _ => None,
    }
}

/// The transitions of an `open` run, where `nonblock` is the platform's
/// non-blocking flag. An event that does not answer the state's pending
/// operation ends the run with a failure.
pub open spec fn open_transition(nonblock: i32, s: OpenState, e: OpenEvent) -> (OpenState, OpenAction) {
    let fail = (OpenState::Finished, OpenAction::Fail { close: held_master(s) });
    match (s, e) {
        (OpenState::Forking, OpenEvent::Forked { ret, master }) =>
            if ret < 0 {
                fail
            } else if ret == 0 {
                (OpenState::Finished, OpenAction::Child)
            } else {
                (OpenState::QueryingFlags { master }, OpenAction::QueryFlags { fd: master })
            },
        (OpenState::QueryingFlags { master }, OpenEvent::FlagsQueried { ret }) =>
            if ret < 0 {
                fail
            } else {
                let flags = ret | nonblock;
                (OpenState::SettingFlags { master, flags }, OpenAction::SetFlags { fd: master, flags })
            },
        (OpenState::SettingFlags { master, flags }, OpenEvent::FlagsSet { ret }) =>
            if ret < 0 {
                fail
            } else {
                (OpenState::Registering { master, flags }, OpenAction::Register { fd: master })
            },
        (OpenState::Registering { master, .. }, OpenEvent::Registered { ok }) =>
            if ok {
                (OpenState::Finished, OpenAction::Parent { master })
            } else {
                fail
            },
        _ => fail,
    }
}

/// Whether `flags` has the non-blocking flag `nonblock` set.
pub open spec fn is_nonblocking(flags: i32, nonblock: i32) -> bool {
    flags & nonblock == nonblock
}

/// One `open` run: allocates a pty pair and forks, then, in the parent, puts
/// the master in non-blocking mode exactly once and registers it.
pub struct OpenSession {
    pub state: OpenState,
    /// The platform's non-blocking flag.
    pub nonblock: i32,
}

impl OpenSession {
    /// Every flag set that the run has reached carries the non-blocking flag.
    pub open spec fn wf(&self) -> bool {
        &&& self.nonblock > 0
        &&& match self.state {
            OpenState::SettingFlags { flags, .. } => is_nonblocking(flags, self.nonblock),
            OpenState::Registering { flags, .. } => is_nonblocking(flags, self.nonblock),
            _ => true,
        }
    }

    /// Starts a run; the caller then forks with `forkpty` and reports it.
    pub fn new() -> (r: OpenSession)
        ensures
            r.wf(),
            r.state == OpenState::Forking,
    {
        OpenSession { state: OpenState::Forking, nonblock: nonblock_flag() }
    }

    /// Takes the answer to the last action and says what to do next.
    pub fn step(&mut self, e: OpenEvent) -> (a: OpenAction)
        requires
            old(self).wf(),
        ensures
            final(self).wf(),
            final(self).nonblock == old(self).nonblock,
            (final(self).state, a) == open_transition(old(self).nonblock, old(self).state, e),
            // A run ends in the child only straight after the fork, and in the
            // parent only after the registration: never both.
            a is Child ==> old(self).state is Forking,
            a is Parent ==> old(self).state is Registering,
            // The parent's master is handed out only in non-blocking mode.
            a matches OpenAction::Parent { master } ==> (old(self).state matches OpenState::Registering { master: m, flags }
                && m == master && is_nonblocking(flags, old(self).nonblock)),
    {
        let nonblock = self.nonblock;
        let (s, a) = match (self.state, e) {
            (OpenState::Forking, OpenEvent::Forked { ret, master }) => {
                if !checked_status(ret) {
                    (OpenState::Finished, OpenAction::Fail { close: None })
                } else if ret == 0 {
                    (OpenState::Finished, OpenAction::Child)
                } else {
                    (OpenState::QueryingFlags { master }, OpenAction::QueryFlags { fd: master })
                }
            },
            (OpenState::QueryingFlags { master }, OpenEvent::FlagsQueried { ret }) => {
                if !checked_status(ret) {
                    (OpenState::Finished, OpenAction::Fail { close: Some(master) })
                } else {
                    let flags = ret | nonblock;
                    assert((ret | nonblock) & nonblock == nonblock) by (bit_vector);
                    (OpenState::SettingFlags { master, flags }, OpenAction::SetFlags { fd: master, flags })
                }
            },
            (OpenState::SettingFlags { master, flags }, OpenEvent::FlagsSet { ret }) => {
                if !checked_status(ret) {
                    (OpenState::Finished, OpenAction::Fail { close: Some(master) })
                } else {
                    (OpenState::Registering { master, flags }, OpenAction::Register { fd: master })
                }
            },
            (OpenState::Registering { master, .. }, OpenEvent::Registered { ok }) => {
                if ok {
                    (OpenState::Finished, OpenAction::Parent { master })
                } else {
                    (OpenState::Finished, OpenAction::Fail { close: Some(master) })
                }
            },
            (OpenState::QueryingFlags { master }, _) => (OpenState::Finished, OpenAction::Fail { close: Some(master) }),
            (OpenState::SettingFlags { master, .. }, _) => (OpenState::Finished, OpenAction::Fail { close: Some(master) }),
            (OpenState::Registering { master, .. }, _) => (OpenState::Finished, OpenAction::Fail { close: Some(master) }),
            _ => (OpenState::Finished, OpenAction::Fail { close: None }),
        };
        self.state = s;
        a
    }
}

} // verus!
