use crate::error::{lift, lifted, EngineException, Error, Result};
use vstd::prelude::*;

verus! {

/// An edge `u -> v` as the engine lists it.
#[derive(Clone, Copy, Debug, PartialEq, Eq, Structural)]
pub struct Edge {
    pub u: u64,
    pub v: u64,
}

/// A partition of the nodes into communities: `membership[u]` is the
/// community of node `u`, and `count` the number of communities.
#[derive(Debug)]
pub struct PartitionResult {
    pub membership: Vec<u64>,
    pub count: u64,
}

/// `res` wraps the engine's reply `created` to a request for a new object:
/// an object holding the handle the engine gave, or the engine's exception.
pub open spec fn created_from<S, H>(
    res: Result<S>,
    created: std::result::Result<H, EngineException>,
    handle: spec_fn(S) -> H,
) -> bool {
    match created {
        Ok(h) => res matches Ok(s) && handle(s) == h,
        Err(e) => res matches Err(Error::Cxx(x)) && x == e,
    }
}

/// A mutable graph held by the engine; `raw` is the engine's handle to it.
pub struct Graph<G> {
    pub raw: G,
}

impl<G> Graph<G> {
    /// A graph from the engine's reply to a request for one.
    pub fn new(created: std::result::Result<G, EngineException>) -> (res: Result<Self>)
        ensures
            created_from(res, created, |s: Self| s.raw),
    {
        match created {
            Ok(raw) => Ok(Graph { raw }),
            Err(e) => Err(Error::from(e)),
        }
    }
}

/// Betweenness centrality, computed by the engine; `raw` is its handle.
pub struct Betweenness<A> {
    pub raw: A,
}

impl<A> Betweenness<A> {
    /// The algorithm object from the engine's reply to a request for one.
    pub fn new(created: std::result::Result<A, EngineException>) -> (res: Result<Self>)
        ensures
            created_from(res, created, |s: Self| s.raw),
    {
        match created {
            Ok(raw) => Ok(Betweenness { raw }),
            Err(e) => Err(Error::from(e)),
        }
    }
}

/// PageRank, computed by the engine; `raw` is its handle.
pub struct PageRank<A> {
    pub raw: A,
}

impl<A> PageRank<A> {
    /// The algorithm object from the engine's reply to a request for one.
    pub fn new(created: std::result::Result<A, EngineException>) -> (res: Result<Self>)
        ensures
            created_from(res, created, |s: Self| s.raw),
    {
        match created {
            Ok(raw) => Ok(PageRank { raw }),
            Err(e) => Err(Error::from(e)),
        }
    }

    /// The number of iterations from the engine's reply to a request for it.
    pub fn number_of_iterations(&self, reply: std::result::Result<u64, EngineException>) -> (res:
        Result<u64>)
        ensures
            res == lifted(reply),
    {
        lift(reply)
    }
}

/// Degree centrality, computed by the engine; `raw` is its handle.
pub struct DegreeCentrality<A> {
    pub raw: A,
}

impl<A> DegreeCentrality<A> {
    /// The algorithm object from the engine's reply to a request for one.
    pub fn new(created: std::result::Result<A, EngineException>) -> (res: Result<Self>)
        ensures
            created_from(res, created, |s: Self| s.raw),
    {
        match created {
            Ok(raw) => Ok(DegreeCentrality { raw }),
            Err(e) => Err(Error::from(e)),
        }
    }
}

/// Connected components, computed by the engine; `raw` is its handle.
pub struct ConnectedComponents<A> {
    pub raw: A,
}

impl<A> ConnectedComponents<A> {
    /// The algorithm object from the engine's reply to a request for one.
    pub fn new(created: std::result::Result<A, EngineException>) -> (res: Result<Self>)
        ensures
            created_from(res, created, |s: Self| s.raw),
    {
        match created {
            Ok(raw) => Ok(ConnectedComponents { raw }),
            Err(e) => Err(Error::from(e)),
        }
    }
}

/// Louvain community detection, run by the engine; `raw` is its handle.
pub struct Louvain<A> {
    pub raw: A,
}

impl<A> Louvain<A> {
    /// The algorithm object from the engine's reply to a request for one.
    pub fn new(created: std::result::Result<A, EngineException>) -> (res: Result<Self>)
        ensures
            created_from(res, created, |s: Self| s.raw),
    {
        match created {
            Ok(raw) => Ok(Louvain { raw }),
            Err(e) => Err(Error::from(e)),
        }
    }
}

/// Leiden community detection, run by the engine; `raw` is its handle.
pub struct Leiden<A> {
    pub raw: A,
}

impl<A> Leiden<A> {
    /// The algorithm object from the engine's reply to a request for one.
    pub fn new(created: std::result::Result<A, EngineException>) -> (res: Result<Self>)
        ensures
            created_from(res, created, |s: Self| s.raw),
    {
        match created {
            Ok(raw) => Ok(Leiden { raw }),
            Err(e) => Err(Error::from(e)),
        }
    }

    /// The outcome of loading a move-scoring extension, from the engine's
    /// reply to the request; the algorithm object is left as it was.
    pub fn load_move_scoring_extension(
        &mut self,
        loaded: std::result::Result<(), EngineException>,
    ) -> (res: Result<()>)
        ensures
            *final(self) == *old(self),
            res == lifted(loaded),
    {
        lift(loaded)
    }

    /// The outcome of unloading the move-scoring extension, from the
    /// engine's reply to the request; the algorithm object is left as it was.
    pub fn unload_move_scoring_extension(
        &mut self,
        unloaded: std::result::Result<(), EngineException>,
    ) -> (res: Result<()>)
        ensures
            *final(self) == *old(self),
            res == lifted(unloaded),
    {
        lift(unloaded)
    }
}

} // verus!
