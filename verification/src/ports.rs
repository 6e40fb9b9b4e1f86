//! Handles of the platform's MIDI ports.
//!
//! A handle names one port of the platform by the identifier that the
//! platform gave it. Nothing here reads the identifier: a handle is carried
//! from a port listing to a connect command and compared by the worker's
//! driver only. A handle may go stale when the device list changes, so the
//! driver checks it again on every connection attempt.

use vstd::prelude::*;

verus! {

/// Names one input port of the platform.
#[derive(Debug, PartialEq, Eq, Hash)]
pub struct MidiInputPort {
    id: String,
}

impl View for MidiInputPort {
    type V = Seq<char>;

    closed spec fn view(&self) -> Seq<char> {
        self.id@
    }
}

impl MidiInputPort {
    /// The handle of the port that the platform knows by `id`.
    pub fn new(id: String) -> (port: MidiInputPort)
        ensures
            port@ == id@,
    {
        MidiInputPort { id }
    }

    /// The identifier that the platform gave the port.
    pub fn id(&self) -> (id: &str)
        ensures
            id@ == self@,
    {
        self.id.as_str()
    }
}

impl Clone for MidiInputPort {
    fn clone(&self) -> (port: MidiInputPort)
        ensures
            port == *self,
    {
        MidiInputPort { id: self.id.clone() }
    }
}

/// Names one output port of the platform.
#[derive(Debug, PartialEq, Eq, Hash)]
pub struct MidiOutputPort {
    id: String,
}

impl View for MidiOutputPort {
    type V = Seq<char>;

    closed spec fn view(&self) -> Seq<char> {
        self.id@
    }
}

impl MidiOutputPort {
    /// The handle of the port that the platform knows by `id`.
    pub fn new(id: String) -> (port: MidiOutputPort)
        ensures
            port@ == id@,
    {
        MidiOutputPort { id }
    }

    /// The identifier that the platform gave the port.
    pub fn id(&self) -> (id: &str)
        ensures
            id@ == self@,
    {
        self.id.as_str()
    }
}

impl Clone for MidiOutputPort {
    fn clone(&self) -> (port: MidiOutputPort)
        ensures
            port == *self,
    {
        MidiOutputPort { id: self.id.clone() }
    }
}

/// Whether the platform could tell the name of every port in `probes`.
pub open spec fn all_named<P>(probes: Seq<(Option<String>, P)>) -> bool {
    forall|i: int| 0 <= i < probes.len() ==> (#[trigger] probes[i]).0 is Some
}

/// The ports of `probes` with their names, in the same order.
pub open spec fn named<P>(probes: Seq<(Option<String>, P)>) -> Seq<(String, P)> {
    Seq::new(probes.len(), |i: int| (probes[i].0.unwrap(), probes[i].1))
}

/// Turns what one attempt to list the ports has found into a port listing.
///
/// `probes` holds the ports in the order in which the platform gave them,
/// each with its name or with `None` where the platform could not tell it,
/// as happens when a device goes away while the ports are listed. The
/// attempt yields a listing only if every port has a name.
pub fn collect_port_names<P>(probes: Vec<(Option<String>, P)>) -> (listing: Option<
    Vec<(String, P)>,
>)
    ensures
        all_named(probes@) ==> listing is Some && listing.unwrap()@ == named(probes@),
        !all_named(probes@) ==> listing is None,
{
    let mut ports: Vec<(String, P)> = Vec::new();
    let ghost all = probes@;
    for probe in it: probes
        invariant
            it.seq() == all,
            all_named(all.take(it.index() as int)),
            ports@ == named(all.take(it.index() as int)),
    {
        let (name, port) = probe;
        match name {
            Some(name) => {
                ports.push((name, port));
            },
            None => {
                return None;
            },
        }
    }
    proof {
        assert(all.take(all.len() as int) == all);
    }
    Some(ports)
}

} // verus!
