//! Attachment: how a debugger comes to be, by launching an executable under
//! trace or by attaching to a process that runs.

use vstd::prelude::*;

use crate::debugger::{Debugger, DebuggerModel};
use crate::error::Error;
use crate::memory_map::ProcMemoryMaps;
use crate::protocol::{Pending, TraceeStatus, SIGTRAP};

verus! {

/// One thing that the engine asks of the platform during attachment.
#[derive(Debug)]
pub enum AttachRequest {
    /// Read the whole file at `path`.
    ReadExecutable { path: String },
    /// Start the executable at `path` as a child that asks to be traced
    /// before it runs its first instruction.
    Spawn { path: String },
    /// Block until the state of the process changes.
    Wait { tracee_id: i32 },
    /// Ask the kernel to trace the process.
    Attach { tracee_id: i32 },
    /// Resolve the link to the executable that the process runs.
    ReadExecutableLink { tracee_id: i32 },
    /// Read the region table of the process and parse it.
    ReadMemoryMaps { tracee_id: i32 },
}

/// What the platform hands back.
#[derive(Debug)]
pub enum AttachReply {
    /// The request failed.
    Failed,
    /// A request that returns nothing was carried out.
    Done,
    /// The bytes of the executable.
    Executable(Vec<u8>),
    /// The process identifier of the child.
    Spawned(i32),
    /// The change of state that ended a wait.
    Status(TraceeStatus),
    /// The path that the link to the executable resolves to.
    Link(String),
    /// The region table of the process.
    MemoryMaps(ProcMemoryMaps),
    /// The region table could not be read, for this reason.
    TableUnreadable(std::io::Error),
}

/// Where an attachment stands: the reply that the engine waits for, and what
/// it has gathered so far.
#[derive(Debug)]
pub enum Attachment {
    /// Launching: the executable is being read.
    LaunchRead { executable_path: String },
    /// Launching: the child is being spawned.
    LaunchSpawn { executable_path: String, executable_data: Vec<u8> },
    /// Launching: the child is being waited for, to stop at its first instruction.
    LaunchWait { executable_path: String, executable_data: Vec<u8>, tracee_id: i32 },
    /// Attaching: the kernel is being asked to trace the process.
    Attaching { tracee_id: i32 },
    /// Attaching: the link to the executable is being resolved.
    LinkRead { tracee_id: i32 },
    /// Attaching: the executable is being read.
    AttachRead { tracee_id: i32, executable_path: String },
    /// The region table of the tracee is being read.
    TableRead { tracee_id: i32, executable_path: String, executable_data: Vec<u8> },
}

/// What the engine tells the platform after each call.
#[derive(Debug)]
pub enum AttachProgress {
    /// Perform `request` and hand the reply to `attachment`.
    Request { request: AttachRequest, attachment: Attachment },
    /// Attachment is over: there is a debugger, or the reason why there is none.
    Finished(Result<Debugger, Error>),
}

/// What an `AttachProgress` holds, with the debugger as mathematics.
pub ghost enum AttachOutcome {
    Request { request: AttachRequest, attachment: Attachment },
    Finished(Result<DebuggerModel, Error>),
}

impl View for AttachProgress {
    type V = AttachOutcome;

    open spec fn view(&self) -> AttachOutcome {
        match *self {
            AttachProgress::Request { request, attachment } => AttachOutcome::Request {
                request,
                attachment,
            },
            AttachProgress::Finished(Ok(debugger)) => AttachOutcome::Finished(Ok(debugger@)),
            AttachProgress::Finished(Err(error)) => AttachOutcome::Finished(Err(error)),
        }
    }
}

/// The debugger that attachment ends with: it knows the tracee, tracks no
/// breakpoint and no watchpoint, and has no operation under way.
pub open spec fn attached(
    tracee_id: i32,
    executable_path: String,
    executable_data: Vec<u8>,
    memory_maps: ProcMemoryMaps,
) -> DebuggerModel {
    DebuggerModel {
        executable_path: executable_path@,
        tracee_id,
        memory_maps: memory_maps@,
        breakpoints: Map::empty(),
        watchpoints: Map::empty(),
        executable_data: executable_data@,
        pending: Pending::Idle,
    }
}

impl Attachment {
    /// The next move of the engine after `reply`. A reply of another kind
    /// than the request calls for counts as a failure of the request.
    pub open spec fn spec_resume(self, reply: AttachReply) -> AttachOutcome {
        match self {
            Attachment::LaunchRead { executable_path } => match reply {
                AttachReply::Executable(executable_data) => AttachOutcome::Request {
                    request: AttachRequest::Spawn { path: executable_path },
                    attachment: Attachment::LaunchSpawn { executable_path, executable_data },
                },
                _ => AttachOutcome::Finished(Err(Error::NoReadExecutablePath(executable_path))),
            },
            Attachment::LaunchSpawn { executable_path, executable_data } => match reply {
                AttachReply::Spawned(tracee_id) => AttachOutcome::Request {
                    request: AttachRequest::Wait { tracee_id },
                    attachment: Attachment::LaunchWait {
                        executable_path,
                        executable_data,
                        tracee_id,
                    },
                },
                _ => AttachOutcome::Finished(Err(Error::ChildAttachment)),
            },
            Attachment::LaunchWait { executable_path, executable_data, tracee_id } => if reply
                == AttachReply::Status(TraceeStatus::Stopped(SIGTRAP)) {
                AttachOutcome::Request {
                    request: AttachRequest::ReadMemoryMaps { tracee_id },
                    attachment: Attachment::TableRead {
                        tracee_id,
                        executable_path,
                        executable_data,
                    },
                }
            } else {
                AttachOutcome::Finished(Err(Error::ChildAttachment))
            },
            Attachment::Attaching { tracee_id } => match reply {
                AttachReply::Done => AttachOutcome::Request {
                    request: AttachRequest::ReadExecutableLink { tracee_id },
                    attachment: Attachment::LinkRead { tracee_id },
                },
                _ => AttachOutcome::Finished(Err(Error::ChildAttachment)),
            },
            Attachment::LinkRead { tracee_id } => match reply {
                AttachReply::Link(executable_path) => AttachOutcome::Request {
                    request: AttachRequest::ReadExecutable { path: executable_path },
                    attachment: Attachment::AttachRead { tracee_id, executable_path },
                },
                _ => AttachOutcome::Finished(Err(Error::ChildAttachment)),
            },
            Attachment::AttachRead { tracee_id, executable_path } => match reply {
                AttachReply::Executable(executable_data) => AttachOutcome::Request {
                    request: AttachRequest::ReadMemoryMaps { tracee_id },
                    attachment: Attachment::TableRead {
                        tracee_id,
                        executable_path,
                        executable_data,
                    },
                },
                _ => AttachOutcome::Finished(Err(Error::NoReadExecutablePath(executable_path))),
            },
            Attachment::TableRead { tracee_id, executable_path, executable_data } => match reply {
                AttachReply::MemoryMaps(memory_maps) => AttachOutcome::Finished(
                    Ok(attached(tracee_id, executable_path, executable_data, memory_maps)),
                ),
                AttachReply::TableUnreadable(error) => AttachOutcome::Finished(
                    Err(Error::IoError(error)),
                ),
                _ => AttachOutcome::Finished(Err(Error::ChildAttachment)),
            },
        }
    }

    /// Takes the reply to the request that the engine asked for last, and
    /// says what comes next: another request, or the end of attachment.
    ///
    /// A launch reads the executable, spawns the child, waits for it and
    /// reads its region table. The child must stop on the trap signal that
    /// follows its start under trace: any other outcome of the wait, like a
    /// failure to spawn, ends the launch with `Error::ChildAttachment`.
    /// Attaching asks the kernel to trace the process, resolves and reads its
    /// executable, and reads its region table. A process that cannot be
    /// traced, or whose executable cannot be resolved, ends the attachment
    /// with `Error::ChildAttachment`; an executable that cannot be read ends
    /// it with `Error::NoReadExecutablePath`.
    pub fn resume(self, reply: AttachReply) -> (progress: AttachProgress)
        ensures
            progress@ == self.spec_resume(reply),
            progress matches AttachProgress::Finished(Ok(debugger)) ==> debugger@.wf(),
    {
        match self {
            Attachment::LaunchRead { executable_path } => match reply {
                AttachReply::Executable(executable_data) => AttachProgress::Request {
                    request: AttachRequest::Spawn { path: executable_path.clone() },
                    attachment: Attachment::LaunchSpawn { executable_path, executable_data },
                },
                _ => AttachProgress::Finished(Err(Error::NoReadExecutablePath(executable_path))),
            },
            Attachment::LaunchSpawn { executable_path, executable_data } => match reply {
                AttachReply::Spawned(tracee_id) => AttachProgress::Request {
                    request: AttachRequest::Wait { tracee_id },
                    attachment: Attachment::LaunchWait {
                        executable_path,
                        executable_data,
                        tracee_id,
                    },
                },
                _ => AttachProgress::Finished(Err(Error::ChildAttachment)),
            },
            Attachment::LaunchWait { executable_path, executable_data, tracee_id } => match reply {
                AttachReply::Status(TraceeStatus::Stopped(signal)) => {
                    if signal == SIGTRAP {
                        AttachProgress::Request {
                            request: AttachRequest::ReadMemoryMaps { tracee_id },
                            attachment: Attachment::TableRead {
                                tracee_id,
                                executable_path,
                                executable_data,
                            },
                        }
                    } else {
                        AttachProgress::Finished(Err(Error::ChildAttachment))
                    }
                },
                _ => AttachProgress::Finished(Err(Error::ChildAttachment)),
            },
            Attachment::Attaching { tracee_id } => match reply {
                AttachReply::Done => AttachProgress::Request {
                    request: AttachRequest::ReadExecutableLink { tracee_id },
                    attachment: Attachment::LinkRead { tracee_id },
                },
                _ => AttachProgress::Finished(Err(Error::ChildAttachment)),
            },
            Attachment::LinkRead { tracee_id } => match reply {
                AttachReply::Link(executable_path) => AttachProgress::Request {
                    request: AttachRequest::ReadExecutable { path: executable_path.clone() },
                    attachment: Attachment::AttachRead { tracee_id, executable_path },
                },
                _ => AttachProgress::Finished(Err(Error::ChildAttachment)),
            },
            Attachment::AttachRead { tracee_id, executable_path } => match reply {
                AttachReply::Executable(executable_data) => AttachProgress::Request {
                    request: AttachRequest::ReadMemoryMaps { tracee_id },
                    attachment: Attachment::TableRead {
                        tracee_id,
                        executable_path,
                        executable_data,
                    },
                },
                _ => AttachProgress::Finished(Err(Error::NoReadExecutablePath(executable_path))),
            },
            Attachment::TableRead { tracee_id, executable_path, executable_data } => match reply {
                AttachReply::MemoryMaps(memory_maps) => AttachProgress::Finished(
                    Ok(Debugger::new(executable_path, tracee_id, memory_maps, executable_data)),
                ),
                AttachReply::TableUnreadable(error) => AttachProgress::Finished(
                    Err(Error::IoError(error)),
                ),
                _ => AttachProgress::Finished(Err(Error::ChildAttachment)),
            },
        }
    }
}

impl Debugger {
    /// Begins to launch the executable at `executable_path` under trace.
    /// The executable is read first: that it can be read is checked before a
    /// child is spawned, and its bytes serve the symbol lookups later.
    pub fn new_with_forked_child(executable_path: String) -> (progress: AttachProgress)
        ensures
            progress@ == (AttachOutcome::Request {
                request: AttachRequest::ReadExecutable { path: executable_path },
                attachment: Attachment::LaunchRead { executable_path },
            }),
    {
        AttachProgress::Request {
            request: AttachRequest::ReadExecutable { path: executable_path.clone() },
            attachment: Attachment::LaunchRead { executable_path },
        }
    }

    /// Begins to attach to the process `pid`, which runs already.
    pub fn new_with_existing_process(pid: i32) -> (progress: AttachProgress)
        ensures
            progress@ == (AttachOutcome::Request {
                request: AttachRequest::Attach { tracee_id: pid },
                attachment: Attachment::Attaching { tracee_id: pid },
            }),
    {
        AttachProgress::Request {
            request: AttachRequest::Attach { tracee_id: pid },
            attachment: Attachment::Attaching { tracee_id: pid },
        }
    }
}

} // verus!
