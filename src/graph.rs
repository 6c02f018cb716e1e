use vstd::prelude::*;

use crate::mode::Mode;

verus! {

/// Integer type of the partitioning engine (a C `int`).
pub type Idx = i32;

/// What a [`Graph`] holds, as mathematical sequences.
pub ghost struct GraphView {
    pub xadj: Seq<Idx>,
    pub adjncy: Seq<Idx>,
    pub vwgt: Option<Seq<Idx>>,
    pub adjwgt: Option<Seq<Idx>>,
}

/// The number of edge endpoints that the offsets announce: their last entry.
pub open spec fn edge_slots(xadj: Seq<Idx>) -> int {
    xadj.last() as int
}

/// The two structural checks made when a graph is built: at least one
/// vertex, and as many adjacency entries as the last offset announces.
pub open spec fn valid_csr(xadj: Seq<Idx>, adjncy: Seq<Idx>) -> bool {
    &&& xadj.len() >= 2
    &&& adjncy.len() == edge_slots(xadj)
}

impl GraphView {
    /// The number of vertices.
    pub open spec fn num_vertices(self) -> int {
        self.xadj.len() - 1
    }

    /// Well-formed: the offsets and adjacency agree, and each weight buffer
    /// present has one entry per vertex or per adjacency entry.
    pub open spec fn wf(self) -> bool {
        &&& valid_csr(self.xadj, self.adjncy)
        &&& (self.vwgt matches Some(w) ==> w.len() == self.num_vertices())
        &&& (self.adjwgt matches Some(w) ==> w.len() == edge_slots(self.xadj))
    }
}

/// Why a graph or one of its weight buffers was refused.
#[derive(Debug, Clone, Copy, PartialEq, Eq, Structural)]
pub enum GraphError {
    /// The offsets describe no vertex (fewer than two of them).
    NoVertices,
    /// The adjacency buffer's length differs from the last offset.
    AdjacencyLength { last_offset: Idx, len: usize },
    /// The vertex weights are not one per vertex.
    VertexWeightLength { expected: usize, len: usize },
    /// The edge weights are not one per adjacency entry.
    EdgeWeightLength { expected: usize, len: usize },
}

/// Builder for a graph partition computation, over caller-owned CSR buffers.
///
/// The buffers are borrowed mutably because the engine's interface takes
/// them without `const`; nothing here writes to them.
#[derive(Debug, PartialEq)]
pub struct Graph<'a> {
    /// The offsets of each vertex's neighbours in `adjncy` (length V + 1).
    xadj: &'a mut [Idx],
    /// The neighbours of all vertices, one list after the other.
    adjncy: &'a mut [Idx],
    /// The computational weights of the vertices (length V).
    vwgt: Option<&'a mut [Idx]>,
    /// The weights of the edges, aligned with `adjncy`.
    adjwgt: Option<&'a mut [Idx]>,
}

/// What an optional buffer holds.
pub open spec fn opt_view(o: Option<&mut [Idx]>) -> Option<Seq<Idx>> {
    match o {
        Some(s) => Some((*s)@),
        None => None,
    }
}

impl<'a> View for Graph<'a> {
    type V = GraphView;

    closed spec fn view(&self) -> GraphView {
        GraphView {
            xadj: (*self.xadj)@,
            adjncy: (*self.adjncy)@,
            vwgt: opt_view(self.vwgt),
            adjwgt: opt_view(self.adjwgt),
        }
    }
}

impl<'a> Graph<'a> {
    /// Creates a graph over `xadj` and `adjncy`, without weights.
    ///
    /// Fails when `xadj` describes no vertex (it has fewer than two
    /// entries), or when the length of `adjncy` is not the last entry of
    /// `xadj`. A refused buffer keeps its contents.
    pub fn new(xadj: &'a mut [Idx], adjncy: &'a mut [Idx]) -> (r: Result<Graph<'a>, GraphError>)
        ensures
            r is Ok <==> valid_csr(old(xadj)@, old(adjncy)@),
            r matches Ok(g) ==> g@ == (GraphView {
                xadj: old(xadj)@,
                adjncy: old(adjncy)@,
                vwgt: None,
                adjwgt: None,
            }),
            r matches Ok(g) ==> g@.wf(),
            r is Err ==> (*final(xadj))@ == old(xadj)@ && (*final(adjncy))@ == old(adjncy)@,
            r matches Err(e) ==> e == (if old(xadj)@.len() < 2 {
                GraphError::NoVertices
            } else {
                GraphError::AdjacencyLength {
                    last_offset: old(xadj)@.last(),
                    len: old(adjncy)@.len() as usize,
                }
            }),
    {
        if xadj.len() < 2 {
            return Err(GraphError::NoVertices);
        }
        let last = xadj[xadj.len() - 1];
        if last < 0 || last as usize != adjncy.len() {
            return Err(GraphError::AdjacencyLength { last_offset: last, len: adjncy.len() });
        }
        Ok(Graph { xadj, adjncy, vwgt: None, adjwgt: None })
    }

    /// The vertex weight buffer that this graph holds, if any.
    pub closed spec fn held_vwgt(&self) -> Option<&'a mut [Idx]> {
        self.vwgt
    }

    /// The edge weight buffer that this graph holds, if any.
    pub closed spec fn held_adjwgt(&self) -> Option<&'a mut [Idx]> {
        self.adjwgt
    }

    /// Whether the graph is well formed. Every graph built by [`Graph::new`]
    /// and the weight setters is; writes through the buffers of a
    /// [`PartitionCall`] may undo it.
    pub fn is_well_formed(&self) -> (r: bool)
        ensures
            r == self@.wf(),
    {
        if self.xadj.len() < 2 {
            return false;
        }
        let last = self.xadj[self.xadj.len() - 1];
        if last < 0 || last as usize != self.adjncy.len() {
            return false;
        }
        let vwgt_ok = match &self.vwgt {
            Some(w) => w.len() == self.xadj.len() - 1,
            None => true,
        };
        let adjwgt_ok = match &self.adjwgt {
            Some(w) => w.len() == self.adjncy.len(),
            None => true,
        };
        vwgt_ok && adjwgt_ok
    }

    /// The number of vertices, one less than the number of offsets.
    pub fn num_vertices(&self) -> (r: usize)
        requires
            self@.wf(),
        ensures
            r == self@.num_vertices(),
    {
        self.xadj.len() - 1
    }

    /// Sets the computational weights of the vertices, one per vertex.
    ///
    /// By default all vertices weigh the same. Weights set before are replaced.
    pub fn set_vwgt(self, vwgt: &'a mut [Idx]) -> (r: Result<Graph<'a>, GraphError>)
        requires
            self@.wf(),
        ensures
            r is Ok <==> old(vwgt)@.len() == self@.num_vertices(),
            r matches Ok(g) ==> g@ == (GraphView { vwgt: Some(old(vwgt)@), ..self@ }),
            r matches Ok(g) ==> g@.wf(),
            r is Err ==> (*final(vwgt))@ == old(vwgt)@,
            r is Ok ==> (self.held_vwgt() matches Some(w) ==> (*final(w))@ == (*w)@),
            r matches Ok(g) ==> (g.held_vwgt() matches Some(w) && (*w)@ == old(vwgt)@
                && (*final(w))@ == (*final(vwgt))@),
            r matches Ok(g) ==> g.held_adjwgt() == self.held_adjwgt(),
            r matches Err(e) ==> e == (GraphError::VertexWeightLength {
                expected: self@.num_vertices() as usize,
                len: old(vwgt)@.len() as usize,
            }),
    {
        let expected: usize = self.xadj.len() - 1;
        if vwgt.len() != expected {
            return Err(GraphError::VertexWeightLength { expected, len: vwgt.len() });
        }
        Ok(Graph { xadj: self.xadj, adjncy: self.adjncy, vwgt: Some(vwgt), adjwgt: self.adjwgt })
    }

    /// Sets the weights of the edges, one per entry of the adjacency buffer.
    ///
    /// By default all edges weigh the same. Weights set before are replaced.
    pub fn set_adjwgt(self, adjwgt: &'a mut [Idx]) -> (r: Result<Graph<'a>, GraphError>)
        requires
            self@.wf(),
        ensures
            r is Ok <==> old(adjwgt)@.len() == edge_slots(self@.xadj),
            r matches Ok(g) ==> g@ == (GraphView { adjwgt: Some(old(adjwgt)@), ..self@ }),
            r matches Ok(g) ==> g@.wf(),
            r is Err ==> (*final(adjwgt))@ == old(adjwgt)@,
            r is Ok ==> (self.held_adjwgt() matches Some(w) ==> (*final(w))@ == (*w)@),
            r matches Ok(g) ==> (g.held_adjwgt() matches Some(w) && (*w)@ == old(adjwgt)@
                && (*final(w))@ == (*final(adjwgt))@),
            r matches Ok(g) ==> g.held_vwgt() == self.held_vwgt(),
            r matches Err(e) ==> e == (GraphError::EdgeWeightLength {
                expected: edge_slots(self@.xadj) as usize,
                len: old(adjwgt)@.len() as usize,
            }),
    {
        let expected: usize = self.adjncy.len();
        if adjwgt.len() != expected {
            return Err(GraphError::EdgeWeightLength { expected, len: adjwgt.len() });
        }
        Ok(Graph { xadj: self.xadj, adjncy: self.adjncy, vwgt: self.vwgt, adjwgt: Some(adjwgt) })
    }
}

/// The argument list of one call into the partitioning engine, but for the
/// imbalance tolerance, which is a float and is supplied by the caller.
///
/// Absent weights stand for the engine's uniform default; `part` is the
/// zero-filled buffer that the engine writes the assignment into.
pub struct PartitionCall<'b> {
    /// The number of vertices.
    pub nvtxs: Idx,
    /// The vertex weights, if any were set.
    pub vwgt: Option<&'b mut [Idx]>,
    /// The graph's offsets.
    pub xadj: &'b mut [Idx],
    /// The edge weights, if any were set.
    pub adjwgt: Option<&'b mut [Idx]>,
    /// The graph's adjacency entries.
    pub adjncy: &'b mut [Idx],
    /// The number of parts asked for.
    pub n_parts: Idx,
    /// Whether the engine keeps its own console output to itself.
    pub suppress_output: bool,
    /// The seed of the engine's randomized phases.
    pub seed: Idx,
    /// The partitioning strategy.
    pub mode: Mode,
    /// One slot per vertex, for the part that the engine assigns it.
    pub part: Vec<Idx>,
}

fn reborrow_opt<'b>(o: &'b mut Option<&mut [Idx]>) -> (r: Option<&'b mut [Idx]>)
    ensures
        opt_view(r) == opt_view(*old(o)),
        opt_view(*final(o)) == match r {
            Some(s) => Some((*final(s))@),
            None => None,
        },
{
    match o {
        Some(s) => Some(&mut **s),
        None => None,
    }
}

impl<'a> Graph<'a> {
    /// Lays out the arguments of one partitioning call on this graph.
    ///
    /// The vertex count is `xadj.len() - 1`, the buffers are this graph's
    /// own, and the assignment buffer holds one zero per vertex.
    pub fn prepare_partition(
        &mut self,
        n_parts: Idx,
        suppress_output: bool,
        seed: Idx,
        mode: Mode,
    ) -> (r: PartitionCall<'_>)
        requires
            old(self)@.wf(),
            old(self)@.num_vertices() <= Idx::MAX,
        ensures
            r.nvtxs == old(self)@.num_vertices(),
            (*r.xadj)@ == old(self)@.xadj,
            (*r.adjncy)@ == old(self)@.adjncy,
            opt_view(r.vwgt) == old(self)@.vwgt,
            opt_view(r.adjwgt) == old(self)@.adjwgt,
            r.n_parts == n_parts,
            r.suppress_output == suppress_output,
            r.seed == seed,
            r.mode == mode,
            r.part@ == Seq::new(old(self)@.num_vertices() as nat, |i: int| 0 as Idx),
            final(self)@ == (GraphView {
                xadj: (*final(r.xadj))@,
                adjncy: (*final(r.adjncy))@,
                vwgt: match r.vwgt {
                    Some(w) => Some((*final(w))@),
                    None => None,
                },
                adjwgt: match r.adjwgt {
                    Some(w) => Some((*final(w))@),
                    None => None,
                },
            }),
    {
        let n: usize = self.xadj.len() - 1;
        let part: Vec<Idx> = vec![0; n];
        proof {
            assert(part@ =~= Seq::new(n as nat, |i: int| 0 as Idx));
        }
        PartitionCall {
            nvtxs: n as Idx,
            vwgt: reborrow_opt(&mut self.vwgt),
            xadj: &mut *self.xadj,
            adjwgt: reborrow_opt(&mut self.adjwgt),
            adjncy: &mut *self.adjncy,
            n_parts,
            suppress_output,
            seed,
            mode,
            part,
        }
    }
}

} // verus!
