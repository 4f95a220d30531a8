use vstd::prelude::*;

verus! {

/// A device as the bridge hands it out: owned UTF-8 strings, no tie to native memory.
#[derive(Clone, Debug)]
pub struct AudioDevice {
    pub id: String,
    pub name: String,
    pub is_default: bool,
}

/// One element of the native device array, copied out of native memory:
/// the UTF-16 units of `id` and `name` up to (not including) their terminating nul.
#[derive(Clone, Debug)]
pub struct RawDevice {
    pub id: Vec<u16>,
    pub name: Vec<u16>,
    pub is_default: bool,
}

/// The ways a bridge operation fails.
#[derive(Clone, Copy, Debug, PartialEq, Eq, Structural)]
pub enum BridgeError {
    /// The native library file is missing or cannot be loaded.
    LoadError,
    /// An expected export is absent from the native library.
    SymbolNotFound,
    /// A native call could not be completed or returned malformed data.
    CallError,
}

/// The contents of a raw element as plain values: id units, name units, default flag.
pub type RawView = (Seq<u16>, Seq<u16>, bool);

impl RawDevice {
    pub open spec fn view(&self) -> RawView {
        (self.id@, self.name@, self.is_default)
    }
}

/// The default flags of a device sequence, in order.
pub open spec fn default_flags(devs: Seq<AudioDevice>) -> Seq<bool> {
    Seq::new(devs.len(), |i: int| devs[i].is_default)
}

/// The default flags of a raw element sequence, in order.
pub open spec fn raw_default_flags(raws: Seq<RawView>) -> Seq<bool> {
    Seq::new(raws.len(), |i: int| raws[i].2)
}

/// No two positions of `flags` are both set.
pub open spec fn at_most_one(flags: Seq<bool>) -> bool {
    forall|i: int, j: int|
        0 <= i < flags.len() && 0 <= j < flags.len() && flags[i] && flags[j] ==> i == j
}

} // verus!
