use vstd::prelude::*;
use crate::device::BridgeError;
use crate::wide::{encode_wide, utf16_of};

verus! {

/// A native command, with its argument already in the form the export takes.
pub enum Command {
    /// Make the device with this id (nul-terminated UTF-16) the default output.
    SetDefaultDevice(Vec<u16>),
    /// Read the master volume.
    GetVolume,
    /// Set the master volume to this level.
    SetVolume(u64),
}

impl Command {
    /// The command that makes the device `id` the default, or `CallError` when
    /// `id` cannot cross the boundary as a nul-terminated wide string.
    pub fn set_default_device(id: &str) -> (r: Result<Command, BridgeError>)
        ensures
            r is Ok <==> !utf16_of(id@).contains(0u16),
            r matches Ok(c) ==> (c matches Command::SetDefaultDevice(w)
                && w@ == utf16_of(id@).push(0u16)),
            r matches Err(e) ==> e == BridgeError::CallError,
    {
        match encode_wide(id) {
            Some(w) => Ok(Command::SetDefaultDevice(w)),
            None => Err(BridgeError::CallError),
        }
    }
}

/// Where a command stands.
#[derive(Clone, Copy, Debug, PartialEq, Eq, Structural)]
pub enum CommandPhase {
    /// Waiting for the native library to load.
    Loading,
    /// Waiting for the command's export to resolve.
    Resolving,
    /// Waiting for the export to return.
    Invoking,
    /// Waiting for the library to unload.
    Unloading,
    /// Finished.
    Done,
}

/// What the caller observed after performing the last action.
pub enum CommandEvent {
    Loaded,
    LoadFailed,
    Resolved,
    SymbolMissing,
    /// The export returned; it carries the level when the command reads the volume.
    Returned(Option<u64>),
    Unloaded,
}

/// What the caller performs next.
pub enum CommandAction {
    /// Load the native library.
    Load,
    /// Resolve the export of the session's command.
    Resolve,
    /// Call that export with the session's command argument.
    Invoke,
    /// Unload the native library.
    Unload,
    /// The command is over; `Ok(Some(level))` for a volume read, `Ok(None)` otherwise.
    Finish(Result<Option<u64>, BridgeError>),
}

/// The decisions of one command: load, resolve its export, call it, unload,
/// and report; a loaded library is unloaded on every path.
pub struct CommandSession {
    pub command: Command,
    pub phase: CommandPhase,
    /// Whether the library was loaded (and so must be unloaded).
    pub loaded: bool,
    /// Whether an unload action has been issued.
    pub unloaded: bool,
    /// What to report once the library is unloaded.
    pub outcome: Result<Option<u64>, BridgeError>,
}

impl CommandSession {
    pub open spec fn wf(&self) -> bool {
        &&& (self.phase == CommandPhase::Loading) ==> !self.loaded && !self.unloaded
        &&& (self.phase == CommandPhase::Resolving || self.phase == CommandPhase::Invoking)
            ==> self.loaded && !self.unloaded
        &&& (self.phase == CommandPhase::Unloading) ==> self.loaded && self.unloaded
        &&& (self.phase == CommandPhase::Done) ==> self.unloaded == self.loaded
    }

    /// The event is one that the caller can observe after the last action.
    pub open spec fn accepts_spec(&self, e: &CommandEvent) -> bool {
        match self.phase {
            CommandPhase::Loading => e is Loaded || e is LoadFailed,
            CommandPhase::Resolving => e is Resolved || e is SymbolMissing,
            CommandPhase::Invoking => e matches CommandEvent::Returned(v)
                && (v is Some <==> self.command is GetVolume),
            CommandPhase::Unloading => e is Unloaded,
            CommandPhase::Done => false,
        }
    }

    pub fn accepts(&self, e: &CommandEvent) -> (r: bool)
        ensures
            r == self.accepts_spec(e),
    {
        match self.phase {
            CommandPhase::Loading => matches!(e, CommandEvent::Loaded | CommandEvent::LoadFailed),
            CommandPhase::Resolving => matches!(e, CommandEvent::Resolved | CommandEvent::SymbolMissing),
            CommandPhase::Invoking => match e {
                CommandEvent::Returned(v) => v.is_some() == matches!(self.command, Command::GetVolume),
                _ => false,
            },
            CommandPhase::Unloading => matches!(e, CommandEvent::Unloaded),
            CommandPhase::Done => false,
        }
    }

    /// Starts a command; its first action is to load the library.
    pub fn start(command: Command) -> (r: (CommandSession, CommandAction))
        ensures
            r.0.wf(),
            r.0.command == command,
            r.0.phase == CommandPhase::Loading,
            r.1 is Load,
    {
        let s = CommandSession {
            command,
            phase: CommandPhase::Loading,
            loaded: false,
            unloaded: false,
            outcome: Ok(None),
        };
        (s, CommandAction::Load)
    }

    /// Takes what the caller observed after the last action and decides the next one.
    pub fn step(&mut self, e: CommandEvent) -> (a: CommandAction)
        requires
            old(self).wf(),
            old(self).accepts_spec(&e),
        ensures
            final(self).wf(),
            final(self).command == old(self).command,
            a is Unload <==> (final(self).unloaded && !old(self).unloaded),
            a is Finish ==> final(self).phase == CommandPhase::Done,
            old(self).phase == CommandPhase::Loading && e is Loaded ==> {
                &&& final(self).phase == CommandPhase::Resolving
                &&& a is Resolve
            },
            old(self).phase == CommandPhase::Loading && e is LoadFailed ==> {
                &&& !final(self).loaded
                &&& a == CommandAction::Finish(Err(BridgeError::LoadError))
            },
            old(self).phase == CommandPhase::Resolving && e is Resolved ==> {
                &&& final(self).phase == CommandPhase::Invoking
                &&& a is Invoke
            },
            old(self).phase == CommandPhase::Resolving && e is SymbolMissing ==> {
                &&& final(self).phase == CommandPhase::Unloading
                &&& a is Unload
                &&& final(self).outcome == Err::<Option<u64>, BridgeError>(BridgeError::SymbolNotFound)
            },
            old(self).phase == CommandPhase::Invoking ==> (e matches CommandEvent::Returned(v) ==> {
                &&& final(self).phase == CommandPhase::Unloading
                &&& a is Unload
                &&& final(self).outcome == Ok::<Option<u64>, BridgeError>(v)
            }),
            old(self).phase == CommandPhase::Unloading ==> a == CommandAction::Finish(old(self).outcome),
    {
        match e {
            CommandEvent::Loaded => {
                self.loaded = true;
                self.phase = CommandPhase::Resolving;
                CommandAction::Resolve
            },
            CommandEvent::LoadFailed => {
                self.phase = CommandPhase::Done;
                CommandAction::Finish(Err(BridgeError::LoadError))
            },
            CommandEvent::Resolved => {
                self.phase = CommandPhase::Invoking;
                CommandAction::Invoke
            },
            CommandEvent::SymbolMissing => {
                self.phase = CommandPhase::Unloading;
                self.unloaded = true;
                self.outcome = Err(BridgeError::SymbolNotFound);
                CommandAction::Unload
            },
            CommandEvent::Returned(v) => {
                self.phase = CommandPhase::Unloading;
                self.unloaded = true;
                self.outcome = Ok(v);
                CommandAction::Unload
            },
            CommandEvent::Unloaded => {
                self.phase = CommandPhase::Done;
                CommandAction::Finish(self.outcome)
            },
        }
    }
}

} // verus!
