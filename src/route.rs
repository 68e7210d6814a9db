//! Ranked routes and the order in which a request is offered to them: a
//! route that declines passes the request on to the next one.
use vstd::prelude::*;

use crate::server::{FileServer, Resolution, ResolutionView};

verus! {

/// A route entry: the pattern it matches below its mount point, and its
/// rank (lower ranks are tried first).
#[derive(Clone, Debug)]
pub struct Route {
    pub rank: isize,
    pub uri: String,
}

/// What a route made of a request.
#[derive(Clone, Copy, Debug, PartialEq, Eq, Structural)]
pub enum Outcome {
    /// A response was produced.
    Success,
    /// The route declined; the next route is tried.
    Forward,
    /// The route failed; no further route is tried.
    Failure,
}

/// The dispatcher's next move.
#[derive(Clone, Copy, Debug, PartialEq, Eq, Structural)]
pub enum Dispatch {
    /// Offer the request to the route at this index.
    Try(usize),
    /// Send what the last route produced.
    Respond,
    /// No route is left: the framework's not-found answer applies.
    NotFound,
}

/// Route `i` is tried before route `j`: by rank, then by registration order.
pub open spec fn before(ranks: Seq<isize>, i: int, j: int) -> bool {
    ranks[i] < ranks[j] || (ranks[i] == ranks[j] && i < j)
}

/// Route `i` exists and is tried after route `j` (after none, for `None`).
pub open spec fn comes_after(ranks: Seq<isize>, j: Option<int>, i: int) -> bool {
    0 <= i < ranks.len() && match j {
        Some(jj) => before(ranks, jj, i),
        None => true,
    }
}

/// `k` is the first route tried after route `j` (or the first of all, when
/// `j` is `None`), and `None` when there is no such route.
pub open spec fn is_next(ranks: Seq<isize>, j: Option<int>, k: Option<int>) -> bool {
    match k {
        Some(kk) => comes_after(ranks, j, kk) && forall|i: int| #[trigger]
            comes_after(ranks, j, i) ==> kk == i || before(ranks, kk, i),
        None => forall|i: int| 0 <= i < ranks.len() ==> !#[trigger] comes_after(ranks, j, i),
    }
}

/// An optional index as a mathematical integer.
pub open spec fn opt_int(o: Option<usize>) -> Option<int> {
    match o {
        Some(x) => Some(x as int),
        None => None,
    }
}

/// The outcome a file server's resolution gives its route.
pub open spec fn outcome_of_spec(r: ResolutionView) -> Outcome {
    match r {
        ResolutionView::Decline => Outcome::Forward,
        _ => Outcome::Success,
    }
}

/// The outcome a file server's resolution gives its route: a decline
/// forwards, anything else is a response.
pub fn outcome_of(r: &Resolution) -> (o: Outcome)
    ensures
        o == outcome_of_spec(r@),
{
    match r {
        Resolution::Decline => Outcome::Forward,
        _ => Outcome::Success,
    }
}

/// The first route tried after route `j`, or the first of all for `None`.
pub fn next_route(ranks: &Vec<isize>, j: Option<usize>) -> (k: Option<usize>)
    requires
        j matches Some(jj) ==> jj < ranks@.len(),
    ensures
        is_next(ranks@, opt_int(j), opt_int(k)),
        k matches Some(kk) ==> kk < ranks@.len(),
        j is None ==> (k is None <==> ranks@.len() == 0),
{
    let ghost jv = opt_int(j);
    let mut best: Option<usize> = None;
    let mut i: usize = 0;
    while i < ranks.len()
        invariant
            i <= ranks@.len(),
            jv == opt_int(j),
            j matches Some(jj) ==> jj < ranks@.len(),
            best matches Some(b) ==> b < i && comes_after(ranks@, jv, b as int) && forall|x: int|
                0 <= x < i && #[trigger] comes_after(ranks@, jv, x) ==> b == x || before(ranks@, b as int, x),
            best is None ==> forall|x: int| 0 <= x < i ==> !#[trigger] comes_after(ranks@, jv, x),
        decreases ranks.len() - i,
    {
        let is_after = match j {
            Some(jj) => ranks[jj] < ranks[i] || (ranks[jj] == ranks[i] && jj < i),
            None => true,
        };
        if is_after {
            match best {
                Some(b) => {
                    if ranks[i] < ranks[b] {
                        best = Some(i);
                    }
                },
                None => {
                    best = Some(i);
                },
            }
        }
        i = i + 1;
    }
    if j.is_none() && ranks.len() > 0 {
        assert(comes_after(ranks@, jv, 0));
    }
    best
}

/// Where dispatch goes once route `j` has answered with `o`.
pub fn dispatch_after(ranks: &Vec<isize>, j: usize, o: Outcome) -> (d: Dispatch)
    requires
        j < ranks@.len(),
    ensures
        o != Outcome::Forward ==> d == Dispatch::Respond,
        o == Outcome::Forward ==> match d {
            Dispatch::Try(k) => k < ranks@.len() && is_next(ranks@, Some(j as int), Some(k as int)),
            Dispatch::NotFound => is_next(ranks@, Some(j as int), None),
            Dispatch::Respond => false,
        },
{
    match o {
        Outcome::Forward => match next_route(ranks, Some(j)) {
            Some(k) => Dispatch::Try(k),
            None => Dispatch::NotFound,
        },
        _ => Dispatch::Respond,
    }
}

/// The route a request is offered to first, if any.
pub fn dispatch_start(ranks: &Vec<isize>) -> (d: Dispatch)
    ensures
        match d {
            Dispatch::Try(k) => k < ranks@.len() && is_next(ranks@, None, Some(k as int)),
            Dispatch::NotFound => ranks@.len() == 0,
            Dispatch::Respond => false,
        },
{
    match next_route(ranks, None) {
        Some(k) => Dispatch::Try(k),
        None => {
            Dispatch::NotFound
        },
    }
}

impl FileServer {
    /// The routes that serve this file server under its mount point: one
    /// route matching every sub-path, the empty one included, at the
    /// server's rank.
    pub fn routes(&self) -> (r: Vec<Route>)
        ensures
            r@.len() == 1,
            forall|i: int| 0 <= i < r@.len() ==> #[trigger] r@[i].rank == self.rank,
            r@[0].uri@ == "/<path..>"@,
    {
        let mut v: Vec<Route> = Vec::new();
        v.push(Route { rank: self.rank, uri: "/<path..>".to_owned() });
        v
    }
}

} // verus!
