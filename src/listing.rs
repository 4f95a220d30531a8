use vstd::prelude::*;
use crate::device::{
    at_most_one, default_flags, raw_default_flags, AudioDevice, BridgeError, RawDevice, RawView,
};
use crate::wide::{decode_device, decodes_to};

verus! {

/// Where a device listing stands.
#[derive(Clone, Copy, Debug, PartialEq, Eq, Structural)]
pub enum ListPhase {
    /// Waiting for the native library to load.
    Loading,
    /// Waiting for both the enumeration and the release export to resolve.
    Resolving,
    /// Waiting for the enumeration export to return.
    Enumerating,
    /// Waiting for the next element of the native array.
    Reading,
    /// Waiting for the release export to return.
    Releasing,
    /// Waiting for the library to unload.
    Unloading,
    /// Finished.
    Done,
}

/// What the caller observed after performing the last action.
pub enum ListEvent {
    Loaded,
    LoadFailed,
    /// Both the enumeration and the release export were found.
    Resolved,
    SymbolMissing,
    /// The enumeration export returned this many elements.
    Enumerated(u64),
    EnumerateFailed,
    /// The element that was asked for, copied out; `None` when it could not be read.
    Element(Option<RawDevice>),
    Released,
    Unloaded,
}

/// What the caller performs next.
pub enum ListAction {
    /// Load the native library.
    Load,
    /// Resolve the enumeration and the release export.
    Resolve,
    /// Call the enumeration export.
    Enumerate,
    /// Copy out the element at this index of the native array.
    Read(u64),
    /// Call the release export on the array that enumeration returned.
    Release,
    /// Unload the native library.
    Unload,
    /// The listing is over, with this result.
    Finish(Result<Vec<AudioDevice>, BridgeError>),
}

/// The decisions of one device listing: load, resolve both exports, enumerate,
/// copy every element, release the native array once, unload.
pub struct ListSession {
    pub phase: ListPhase,
    /// The element count that enumeration reported.
    pub count: u64,
    /// The devices decoded so far, in native order.
    pub devices: Vec<AudioDevice>,
    /// The failure to report once cleanup is done.
    pub failure: Option<BridgeError>,
    /// Whether enumeration returned an array (which must then be released).
    pub enumerated: bool,
    /// How many release actions have been issued.
    pub releases: u64,
    /// The raw elements read so far.
    pub raws: Ghost<Seq<RawView>>,
}

/// Each device of `devs` is the decoding of the raw element at its position.
pub open spec fn decodes_all(devs: Seq<AudioDevice>, raws: Seq<RawView>) -> bool {
    &&& devs.len() == raws.len()
    &&& forall|i: int| 0 <= i < devs.len() ==> decodes_to(#[trigger] devs[i], raws[i])
}

/// Decoding is deterministic: two device sequences decoded from the same raw
/// elements agree field for field.
pub proof fn lemma_decoding_deterministic(
    a: Seq<AudioDevice>,
    b: Seq<AudioDevice>,
    raws: Seq<RawView>,
)
    requires
        decodes_all(a, raws),
        decodes_all(b, raws),
    ensures
        a.len() == b.len(),
        forall|i: int| 0 <= i < a.len() ==> {
            &&& (#[trigger] a[i]).id@ == b[i].id@
            &&& a[i].name@ == b[i].name@
            &&& a[i].is_default == b[i].is_default
        },
{
    assert forall|i: int| 0 <= i < a.len() implies {
        &&& (#[trigger] a[i]).id@ == b[i].id@
        &&& a[i].name@ == b[i].name@
        &&& a[i].is_default == b[i].is_default
    } by {
        assert(decodes_to(a[i], raws[i]));
        assert(decodes_to(b[i], raws[i]));
    }
}

/// Decoding keeps every default flag where it was, so the devices have at most
/// one default exactly when the native elements do: the bridge neither invents
/// nor resolves a second default.
pub proof fn lemma_defaults_kept(devs: Seq<AudioDevice>, raws: Seq<RawView>)
    requires
        decodes_all(devs, raws),
    ensures
        default_flags(devs) == raw_default_flags(raws),
        at_most_one(default_flags(devs)) <==> at_most_one(raw_default_flags(raws)),
{
    assert forall|i: int| 0 <= i < devs.len() implies default_flags(devs)[i]
        == raw_default_flags(raws)[i] by {
        assert(decodes_to(devs[i], raws[i]));
    }
    assert(default_flags(devs) =~= raw_default_flags(raws));
}

/// A finished listing has asked for the release of the native array exactly
/// once when enumeration returned one, and never otherwise, including when an
/// element could not be read.
pub proof fn lemma_release_exactly_once(s: ListSession)
    requires
        s.wf(),
        s.phase == ListPhase::Done,
    ensures
        s.enumerated ==> s.releases == 1,
        !s.enumerated ==> s.releases == 0,
{
}

impl ListSession {
    pub open spec fn wf(&self) -> bool {
        &&& self.releases <= 1
        &&& self.releases == (if self.enumerated && (self.phase == ListPhase::Releasing
            || self.phase == ListPhase::Unloading || self.phase == ListPhase::Done) { 1int } else { 0int })
        &&& self.phase != ListPhase::Done ==> decodes_all(self.devices@, self.raws@)
        &&& self.devices@.len() <= self.count
        &&& (self.phase == ListPhase::Loading || self.phase == ListPhase::Resolving
            || self.phase == ListPhase::Enumerating) ==> {
            &&& !self.enumerated
            &&& self.devices@.len() == 0
            &&& self.failure is None
        }
        &&& self.phase == ListPhase::Reading ==> {
            &&& self.enumerated
            &&& self.devices@.len() < self.count
            &&& self.failure is None
        }
        &&& self.phase == ListPhase::Releasing ==> self.enumerated
        &&& (self.phase == ListPhase::Releasing || self.phase == ListPhase::Unloading)
            ==> (self.failure is None ==> {
            &&& self.enumerated
            &&& self.devices@.len() == self.count
        })
    }

    /// The event is one that the caller can observe after the last action.
    pub open spec fn accepts_spec(&self, e: &ListEvent) -> bool {
        match self.phase {
            ListPhase::Loading => e is Loaded || e is LoadFailed,
            ListPhase::Resolving => e is Resolved || e is SymbolMissing,
            ListPhase::Enumerating => e is Enumerated || e is EnumerateFailed,
            ListPhase::Reading => e is Element,
            ListPhase::Releasing => e is Released,
            ListPhase::Unloading => e is Unloaded,
            ListPhase::Done => false,
        }
    }

    pub fn accepts(&self, e: &ListEvent) -> (r: bool)
        ensures
            r == self.accepts_spec(e),
    {
        match self.phase {
            ListPhase::Loading => matches!(e, ListEvent::Loaded | ListEvent::LoadFailed),
            ListPhase::Resolving => matches!(e, ListEvent::Resolved | ListEvent::SymbolMissing),
            ListPhase::Enumerating => matches!(e, ListEvent::Enumerated(_) | ListEvent::EnumerateFailed),
            ListPhase::Reading => matches!(e, ListEvent::Element(_)),
            ListPhase::Releasing => matches!(e, ListEvent::Released),
            ListPhase::Unloading => matches!(e, ListEvent::Unloaded),
            ListPhase::Done => false,
        }
    }

    /// Starts a listing; its first action is to load the library.
    pub fn start() -> (r: (ListSession, ListAction))
        ensures
            r.0.wf(),
            r.0.phase == ListPhase::Loading,
            r.0.releases == 0,
            r.1 is Load,
    {
        let s = ListSession {
            phase: ListPhase::Loading,
            count: 0,
            devices: Vec::new(),
            failure: None,
            enumerated: false,
            releases: 0,
            raws: Ghost(Seq::empty()),
        };
        (s, ListAction::Load)
    }
    /// Takes what the caller observed after the last action and decides the next one.
    /// The release export is asked for exactly when enumeration returned an array,
    /// and then once, whether or not every element could be read.
    pub fn step(&mut self, e: ListEvent) -> (a: ListAction)
        requires
            old(self).wf(),
            old(self).accepts_spec(&e),
        ensures
            final(self).wf(),
            final(self).releases == old(self).releases + (if a is Release { 1int } else { 0int }),
            a is Finish ==> {
                &&& final(self).phase == ListPhase::Done
                &&& final(self).releases == (if final(self).enumerated { 1int } else { 0int })
            },
            a matches ListAction::Finish(Ok(v)) ==> {
                &&& final(self).enumerated
                &&& v@.len() == final(self).count
                &&& decodes_all(v@, final(self).raws@)
            },
            old(self).phase != ListPhase::Enumerating ==> {
                &&& final(self).count == old(self).count
                &&& final(self).enumerated == old(self).enumerated
            },
            old(self).phase == ListPhase::Loading && e is Loaded ==> {
                &&& final(self).phase == ListPhase::Resolving
                &&& a is Resolve
            },
            old(self).phase == ListPhase::Loading && e is LoadFailed ==> {
                &&& final(self).phase == ListPhase::Done
                &&& a matches ListAction::Finish(Err(f)) && f == BridgeError::LoadError
                &&& !final(self).enumerated
            },
            old(self).phase == ListPhase::Resolving && e is Resolved ==> {
                &&& final(self).phase == ListPhase::Enumerating
                &&& a is Enumerate
            },
            old(self).phase == ListPhase::Resolving && e is SymbolMissing ==> {
                &&& final(self).phase == ListPhase::Unloading
                &&& a is Unload
                &&& final(self).failure == Some(BridgeError::SymbolNotFound)
            },
            old(self).phase == ListPhase::Enumerating ==> (e matches ListEvent::Enumerated(n) ==> {
                &&& final(self).enumerated
                &&& final(self).count == n
                &&& final(self).failure is None
                &&& final(self).devices@.len() == 0
                &&& n == 0 ==> final(self).phase == ListPhase::Releasing && a is Release
                &&& n > 0 ==> (final(self).phase == ListPhase::Reading && (a matches ListAction::Read(i) && i == 0))
            }),
            old(self).phase == ListPhase::Enumerating && e is EnumerateFailed ==> {
                &&& final(self).phase == ListPhase::Unloading
                &&& a is Unload
                &&& !final(self).enumerated
                &&& final(self).failure == Some(BridgeError::CallError)
            },
            old(self).phase == ListPhase::Reading ==> (e matches ListEvent::Element(Some(raw)) ==> {
                &&& final(self).raws@ == old(self).raws@.push(raw@)
                &&& final(self).failure is None
                &&& final(self).devices@ == old(self).devices@.push(final(self).devices@.last())
                &&& final(self).devices@.len() < final(self).count ==> (
                    final(self).phase == ListPhase::Reading
                    && (a matches ListAction::Read(i) && i == final(self).devices@.len()))
                &&& final(self).devices@.len() == final(self).count ==> (
                    final(self).phase == ListPhase::Releasing && a is Release)
            }),
            (old(self).phase == ListPhase::Reading && e matches ListEvent::Element(None)) ==> {
                &&& final(self).phase == ListPhase::Releasing
                &&& a is Release
                &&& final(self).failure == Some(BridgeError::CallError)
            },
            old(self).phase == ListPhase::Releasing ==> {
                &&& final(self).phase == ListPhase::Unloading
                &&& a is Unload
                &&& final(self).failure == old(self).failure
                &&& final(self).devices@ == old(self).devices@
            },
            old(self).phase == ListPhase::Unloading ==> {
                &&& final(self).phase == ListPhase::Done
                &&& old(self).failure matches Some(f) ==> (a matches ListAction::Finish(Err(g)) && g == f)
                &&& old(self).failure is None ==> (a matches ListAction::Finish(Ok(v)) && v@ == old(self).devices@)
            },
    {
        match e {
            ListEvent::Loaded => {
                self.phase = ListPhase::Resolving;
                ListAction::Resolve
            },
            ListEvent::LoadFailed => {
                self.phase = ListPhase::Done;
                ListAction::Finish(Err(BridgeError::LoadError))
            },
            ListEvent::Resolved => {
                self.phase = ListPhase::Enumerating;
                ListAction::Enumerate
            },
            ListEvent::SymbolMissing => {
                self.phase = ListPhase::Unloading;
                self.failure = Some(BridgeError::SymbolNotFound);
                ListAction::Unload
            },
            ListEvent::Enumerated(n) => {
                self.enumerated = true;
                self.count = n;
                if n == 0 {
                    self.phase = ListPhase::Releasing;
                    self.releases = 1;
                    ListAction::Release
                } else {
                    self.phase = ListPhase::Reading;
                    ListAction::Read(0)
                }
            },
            ListEvent::EnumerateFailed => {
                self.phase = ListPhase::Unloading;
                self.failure = Some(BridgeError::CallError);
                ListAction::Unload
            },
            ListEvent::Element(Some(raw)) => {
                let d = decode_device(&raw);
                self.devices.push(d);
                self.raws = Ghost(self.raws@.push(raw@));
                let len = self.devices.len() as u64;
                if len < self.count {
                    ListAction::Read(len)
                } else {
                    self.phase = ListPhase::Releasing;
                    self.releases = 1;
                    ListAction::Release
                }
            },
            ListEvent::Element(None) => {
                self.phase = ListPhase::Releasing;
                self.failure = Some(BridgeError::CallError);
                self.releases = 1;
                ListAction::Release
            },
            ListEvent::Released => {
                self.phase = ListPhase::Unloading;
                ListAction::Unload
            },
            ListEvent::Unloaded => {
                self.phase = ListPhase::Done;
                match self.failure {
                    Some(f) => ListAction::Finish(Err(f)),
                    None => {
                        let mut out: Vec<AudioDevice> = Vec::new();
                        core::mem::swap(&mut self.devices, &mut out);
                        ListAction::Finish(Ok(out))
                    },
                }
            },
        }
    }
}

} // verus!
