//! The pipeline graph model: nodes, properties, links, ports and run state.

use vstd::prelude::*;

verus! {

/// The value of one structured field of a capability set.
pub enum FieldValue {
    IntVal(i64),
    StrVal(String),
}

/// One named field of a capability set (width, height, rate, ...).
pub struct CapsField {
    pub name: String,
    pub value: FieldValue,
}

/// An immutable description of the acceptable media format on a link:
/// a media kind plus structured fields.
pub struct CapsSpec {
    pub media: String,
    pub fields: Vec<CapsField>,
}

/// A typed property value applied to a processing node.
pub enum PropValue {
    StrVal(String),
    UIntVal(u64),
    IntVal(i64),
    BoolVal(bool),
    /// An enumerated-string property (set by variant name on the engine side).
    EnumVal(String),
    /// A capability set bound to a filter node.
    CapsVal(CapsSpec),
}

/// One named property applied to a node.
pub struct Property {
    pub name: String,
    pub value: PropValue,
}

/// A processing node: an engine kind name plus the properties applied to
/// it, in the order they were applied.
pub struct NodeSpec {
    pub kind: String,
    pub props: Vec<Property>,
}

/// A directed link between two registered nodes, by graph index.
#[derive(Clone, Copy, PartialEq, Eq, Structural)]
pub struct Link {
    pub from: usize,
    pub to: usize,
}

/// The media-kind tag under which a dynamic input port is requested.
#[derive(Clone, Copy, PartialEq, Eq, Structural)]
pub enum MediaKind {
    Video,
    Audio,
}

/// A dynamically allocated input port on a node.  Every requested port is
/// required: the graph may not start playing until each one is linked.
#[derive(Clone, Copy, PartialEq, Eq, Structural)]
pub struct PortSpec {
    pub node: usize,
    pub media: MediaKind,
}

/// A link from a node's static output pad to a requested input port.
#[derive(Clone, Copy, PartialEq, Eq, Structural)]
pub struct PadLink {
    pub src: usize,
    pub port: usize,
}

/// The global run state of the graph.  Only `Null` and `Playing` are ever
/// driven explicitly; the transitions used are Null -> Playing and
/// Playing -> Null.
#[derive(Clone, Copy, PartialEq, Eq, Structural)]
pub enum RunState {
    Null,
    Ready,
    Paused,
    Playing,
}

/// A construction error: the rules construction can break.
#[derive(Clone, Copy, PartialEq, Eq, Structural, Debug)]
pub enum BuildError {
    /// A link names a node that was never registered into the graph.
    UnregisteredNode,
    /// A pad link names a port that was never requested.
    UnknownPort,
    /// A dynamic port was requested twice for the same media kind.
    PortAlreadyRequested,
}

/// Why a run-state transition was refused.
#[derive(Clone, Copy, PartialEq, Eq, Structural, Debug)]
pub enum StartError {
    /// Some requested input port has no producer linked to it.
    UnlinkedPort,
}

/// The top-level owner of all nodes: bulk node registration, node and pad
/// links, dynamic ports, and the global run state.
pub struct PipelineGraph {
    pub nodes: Vec<NodeSpec>,
    pub links: Vec<Link>,
    pub ports: Vec<PortSpec>,
    pub pad_links: Vec<PadLink>,
    pub state: RunState,
}

impl PipelineGraph {
    /// Well-formedness: links, ports and pad links only ever name
    /// registered nodes and requested ports.
    pub open spec fn wf(self) -> bool {
        &&& forall|i: int|
            0 <= i < self.links@.len() ==> (#[trigger] self.links@[i]).from < self.nodes@.len()
                && self.links@[i].to < self.nodes@.len()
        &&& forall|i: int|
            0 <= i < self.ports@.len() ==> (#[trigger] self.ports@[i]).node < self.nodes@.len()
        &&& forall|i: int|
            0 <= i < self.pad_links@.len() ==> (#[trigger] self.pad_links@[i]).src
                < self.nodes@.len() && self.pad_links@[i].port < self.ports@.len()
    }

    /// Port `p` has at least one producer linked to it.
    pub open spec fn port_linked(self, p: int) -> bool {
        exists|i: int| 0 <= i < self.pad_links@.len() && (#[trigger] self.pad_links@[i]).port == p
    }

    /// Every requested port has a producer: the condition for starting.
    pub open spec fn all_ports_linked(self) -> bool {
        forall|p: int| 0 <= p < self.ports@.len() ==> self.port_linked(p)
    }

    /// An empty graph in the `Null` run state.
    pub fn new() -> (g: PipelineGraph)
        ensures
            g.wf(),
            g.nodes@.len() == 0,
            g.links@.len() == 0,
            g.ports@.len() == 0,
            g.pad_links@.len() == 0,
            g.state == RunState::Null,
    {
        PipelineGraph {
            nodes: Vec::new(),
            links: Vec::new(),
            ports: Vec::new(),
            pad_links: Vec::new(),
            state: RunState::Null,
        }
    }

    /// Applies one more named property to a registered node.
    pub fn set_property(&mut self, node: usize, name: &str, value: PropValue)
        requires
            old(self).wf(),
            node < old(self).nodes@.len(),
        ensures
            final(self).wf(),
            final(self).nodes@.len() == old(self).nodes@.len(),
            forall|i: int|
                0 <= i < old(self).nodes@.len() && i != node
                    ==> final(self).nodes@[i] == old(self).nodes@[i],
            final(self).nodes@[node as int].kind@ == old(self).nodes@[node as int].kind@,
            final(self).nodes@[node as int].props@.len()
                == old(self).nodes@[node as int].props@.len() + 1,
            final(self).nodes@[node as int].props@.subrange(
                0,
                old(self).nodes@[node as int].props@.len() as int,
            ) == old(self).nodes@[node as int].props@,
            final(self).nodes@[node as int].props@.last().name@ == name@,
            final(self).nodes@[node as int].props@.last().value == value,
            final(self).links@ == old(self).links@,
            final(self).ports@ == old(self).ports@,
            final(self).pad_links@ == old(self).pad_links@,
            final(self).state == old(self).state,
    {
        let n = &mut self.nodes[node];
        n.props.push(Property { name: name.to_owned(), value });
        proof {
            assert(self.nodes@[node as int].props@.subrange(
                0,
                old(self).nodes@[node as int].props@.len() as int,
            ) =~= old(self).nodes@[node as int].props@);
        }
    }

    /// Links two registered nodes; linking an unregistered node is a
    /// construction error and leaves the graph unchanged.
    pub fn link(&mut self, from: usize, to: usize) -> (r: Result<(), BuildError>)
        requires
            old(self).wf(),
        ensures
            final(self).wf(),
            r is Ok <==> (from < old(self).nodes@.len() && to < old(self).nodes@.len()),
            r is Ok ==> final(self).links@ == old(self).links@.push((Link { from, to })),
            r is Ok ==> final(self).nodes@ == old(self).nodes@,
            r is Ok ==> final(self).ports@ == old(self).ports@,
            r is Ok ==> final(self).pad_links@ == old(self).pad_links@,
            r is Ok ==> final(self).state == old(self).state,
            r is Err ==> *final(self) == *old(self),
            r is Err ==> r == Result::<(), BuildError>::Err(BuildError::UnregisteredNode),
    {
        if from < self.nodes.len() && to < self.nodes.len() {
            self.links.push(Link { from, to });
            Ok(())
        } else {
            Err(BuildError::UnregisteredNode)
        }
    }

    /// Links two nodes both known to be registered (builders link their
    /// own freshly registered nodes, so the registration rule holds by
    /// construction).
    pub fn link_nodes(&mut self, from: usize, to: usize)
        requires
            old(self).wf(),
            from < old(self).nodes@.len(),
            to < old(self).nodes@.len(),
        ensures
            final(self).wf(),
            final(self).links@ == old(self).links@.push((Link { from, to })),
            final(self).nodes@ == old(self).nodes@,
            final(self).ports@ == old(self).ports@,
            final(self).pad_links@ == old(self).pad_links@,
            final(self).state == old(self).state,
    {
        self.links.push(Link { from, to });
    }

    /// Links a node's static output pad to a requested input port; naming
    /// an unregistered node or an unknown port is a construction error.
    pub fn link_pad(&mut self, src: usize, port: usize) -> (r: Result<(), BuildError>)
        requires
            old(self).wf(),
        ensures
            final(self).wf(),
            r is Ok <==> (src < old(self).nodes@.len() && port < old(self).ports@.len()),
            r is Ok ==> final(self).pad_links@ == old(self).pad_links@.push((PadLink { src, port })),
            r is Ok ==> final(self).nodes@ == old(self).nodes@,
            r is Ok ==> final(self).links@ == old(self).links@,
            r is Ok ==> final(self).ports@ == old(self).ports@,
            r is Ok ==> final(self).state == old(self).state,
            r is Err && src < old(self).nodes@.len()
                ==> r == Result::<(), BuildError>::Err(BuildError::UnknownPort),
            r is Err && src >= old(self).nodes@.len()
                ==> r == Result::<(), BuildError>::Err(BuildError::UnregisteredNode),
            r is Err ==> *final(self) == *old(self),
    {
        if src >= self.nodes.len() {
            Err(BuildError::UnregisteredNode)
        } else if port >= self.ports.len() {
            Err(BuildError::UnknownPort)
        } else {
            self.pad_links.push(PadLink { src, port });
            Ok(())
        }
    }

    /// Links a node's static output pad to a port both known to exist
    /// (the assembler links the egress nodes and ports it just created).
    pub fn link_port(&mut self, src: usize, port: usize)
        requires
            old(self).wf(),
            src < old(self).nodes@.len(),
            port < old(self).ports@.len(),
        ensures
            final(self).wf(),
            final(self).pad_links@ == old(self).pad_links@.push((PadLink { src, port })),
            final(self).nodes@ == old(self).nodes@,
            final(self).links@ == old(self).links@,
            final(self).ports@ == old(self).ports@,
            final(self).state == old(self).state,
    {
        self.pad_links.push(PadLink { src, port });
    }

    /// Whether requested port `p` already has a producer linked.
    pub fn port_is_linked(&self, p: usize) -> (r: bool)
        ensures
            r == self.port_linked(p as int),
    {
        let mut i: usize = 0;
        while i < self.pad_links.len()
            invariant
                i <= self.pad_links@.len(),
                forall|j: int| 0 <= j < i ==> (#[trigger] self.pad_links@[j]).port != p,
            decreases self.pad_links@.len() - i,
        {
            if self.pad_links[i].port == p {
                return true;
            }
            i = i + 1;
        }
        false
    }

    /// Drives the global run-state transition.  The transition to
    /// `Playing` is refused while any requested port is unlinked: an
    /// incompletely wired graph never runs.  Every other transition is
    /// unconditional; in particular the teardown to `Null` always
    /// succeeds.
    #[verifier::loop_isolation(false)]
    pub fn set_state(&mut self, s: RunState) -> (r: Result<(), StartError>)
        ensures
            r is Ok <==> (s != RunState::Playing || old(self).all_ports_linked()),
            r is Ok ==> final(self).state == s,
            r is Ok ==> final(self).nodes@ == old(self).nodes@,
            r is Ok ==> final(self).links@ == old(self).links@,
            r is Ok ==> final(self).ports@ == old(self).ports@,
            r is Ok ==> final(self).pad_links@ == old(self).pad_links@,
            r is Err ==> *final(self) == *old(self),
            r is Err ==> r == Result::<(), StartError>::Err(StartError::UnlinkedPort),
            old(self).wf() ==> final(self).wf(),
    {
        if let RunState::Playing = s {
            let mut p: usize = 0;
            while p < self.ports.len()
                invariant
                    *self == *old(self),
                    p <= self.ports@.len(),
                    forall|q: int| 0 <= q < p ==> self.port_linked(q),
                decreases self.ports@.len() - p,
            {
                if !self.port_is_linked(p) {
                    proof {
                        assert(!self.all_ports_linked()) by {
                            assert((p as int) < self.ports@.len());
                            assert(!self.port_linked(p as int));
                        }
                    }
                    return Err(StartError::UnlinkedPort);
                }
                p = p + 1;
            }
        }
        self.state = s;
        Ok(())
    }
}

} // verus!
