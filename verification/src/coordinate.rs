//! Grid coordinates, the path of a node from the root, and the rule by which
//! a node derives its own placement from that of its parent block.

use crate::id_utils::Coordinate;
use crate::localnet::{offset_of_location, LocalNetworkLocation};
use vstd::prelude::*;

verus! {

/// Longest path from the root that a placement can carry: with its
/// coordinate it has to fit the payload of one frame.
pub const MAX_DEPTH: usize = 60;

/// Smallest component that can still be doubled within 16 bits.
pub const PARENT_COMPONENT_MIN: i16 = -16384;

/// Largest component that can still be doubled, and stepped, within 16 bits.
pub const PARENT_COMPONENT_MAX: i16 = 16383;

/// Where a node sits in the whole display: the locations passed on the way
/// from the root block down to the node, outermost first. The root itself has
/// the empty path.
#[derive(Debug, PartialEq, Eq)]
pub struct GlobalLocation {
    path: Vec<LocalNetworkLocation>,
}

impl View for GlobalLocation {
    type V = Seq<LocalNetworkLocation>;

    closed spec fn view(&self) -> Seq<LocalNetworkLocation> {
        self.path@
    }
}

impl Clone for GlobalLocation {
    fn clone(&self) -> (copy: GlobalLocation)
        ensures
            copy@ == self@,
    {
        GlobalLocation { path: self.path() }
    }
}

impl GlobalLocation {
    /// Every path is at most `MAX_DEPTH` long.
    #[verifier::type_invariant]
    pub open spec fn wf(&self) -> bool {
        self@.len() <= MAX_DEPTH
    }

    /// The placement of the root: the empty path.
    pub fn origin() -> (location: GlobalLocation)
        ensures
            location@ == Seq::<LocalNetworkLocation>::empty(),
    {
        GlobalLocation { path: Vec::new() }
    }

    /// The placement with the given path, or nothing if the path is longer
    /// than `MAX_DEPTH`.
    pub fn from_path(path: Vec<LocalNetworkLocation>) -> (location: Option<GlobalLocation>)
        ensures
            location.is_some() <==> path@.len() <= MAX_DEPTH,
            location matches Some(l) ==> l@ == path@,
    {
        if path.len() > MAX_DEPTH {
            None
        } else {
            Some(GlobalLocation { path })
        }
    }

    /// The placement with the given path, which is known to be short enough.
    pub(crate) fn from_short_path(path: Vec<LocalNetworkLocation>) -> (location: GlobalLocation)
        requires
            path@.len() <= MAX_DEPTH,
        ensures
            location@ == path@,
    {
        GlobalLocation { path }
    }

    /// The number of steps from the root, which is at most `MAX_DEPTH`.
    pub fn depth(&self) -> (depth: usize)
        ensures
            depth == self@.len(),
            depth <= MAX_DEPTH,
    {
        proof {
            use_type_invariant(self);
        }
        self.path.len()
    }

    /// The step at `index`, counted from the root, if there is one.
    pub fn step(&self, index: usize) -> (step: Option<LocalNetworkLocation>)
        ensures
            step == if index < self@.len() {
                Some(self@[index as int])
            } else {
                None
            },
    {
        if index < self.path.len() {
            Some(self.path[index])
        } else {
            None
        }
    }

    /// A copy of the path, outermost step first.
    pub fn path(&self) -> (path: Vec<LocalNetworkLocation>)
        ensures
            path@ == self@,
            path@.len() <= MAX_DEPTH,
    {
        proof {
            use_type_invariant(self);
        }
        let mut path: Vec<LocalNetworkLocation> = Vec::new();
        let mut i: usize = 0;
        while i < self.path.len()
            invariant
                i <= self.path.len(),
                path@ == self.path@.subrange(0, i as int),
            decreases self.path.len() - i,
        {
            path.push(self.path[i]);
            i += 1;
        }
        path
    }

    /// This path with one more step at its end.
    pub fn extended(&self, location: LocalNetworkLocation) -> (longer: GlobalLocation)
        requires
            self@.len() < MAX_DEPTH,
        ensures
            longer@ == self@.push(location),
    {
        let mut path = self.path();
        path.push(location);
        GlobalLocation { path }
    }
}

/// Whether a node can build its own placement on the given one: each
/// component of the coordinate can be doubled and stepped within 16 bits, and
/// the path has room for one more step.
pub open spec fn can_estimate(coordinate: Coordinate, path: Seq<LocalNetworkLocation>) -> bool {
    &&& PARENT_COMPONENT_MIN <= coordinate.0 <= PARENT_COMPONENT_MAX
    &&& PARENT_COMPONENT_MIN <= coordinate.1 <= PARENT_COMPONENT_MAX
    &&& path.len() < MAX_DEPTH
}

/// The coordinate of the tile at `location` in the block whose parent sits at
/// `neighbor`: the parent's coordinate doubled, plus the step of the location.
pub open spec fn estimated_coordinate(neighbor: Coordinate, location: LocalNetworkLocation) -> (
    int,
    int,
) {
    (
        2 * neighbor.0 + offset_of_location(location).0,
        2 * neighbor.1 + offset_of_location(location).1,
    )
}

/// No two tiles share a coordinate: where two estimates agree, they are built
/// on the same coordinate and for the same location.
pub proof fn lemma_estimate_is_injective(
    first: Coordinate,
    first_location: LocalNetworkLocation,
    second: Coordinate,
    second_location: LocalNetworkLocation,
)
    requires
        estimated_coordinate(first, first_location) == estimated_coordinate(
            second,
            second_location,
        ),
    ensures
        first == second,
        first_location == second_location,
{
}

/// Tells whether `estimate` can be called on a placement.
pub fn placement_can_be_extended(coordinate: Coordinate, global_location: &GlobalLocation) -> (ok:
    bool)
    ensures
        ok == can_estimate(coordinate, global_location@),
{
    PARENT_COMPONENT_MIN <= coordinate.0 && coordinate.0 <= PARENT_COMPONENT_MAX
        && PARENT_COMPONENT_MIN <= coordinate.1 && coordinate.1 <= PARENT_COMPONENT_MAX
        && global_location.depth() < MAX_DEPTH
}

/// The placement of a node, given the placement of a confirmed neighbour and
/// the node's own location in its local network. The neighbour is taken to be
/// the parent block: the coordinate is the neighbour's doubled plus the step of
/// the location, and the path is the neighbour's with the location appended.
pub fn estimate(
    neighbor_coordinate: Coordinate,
    neighbor_global_location: &GlobalLocation,
    my_location: LocalNetworkLocation,
) -> (placement: (Coordinate, GlobalLocation))
    requires
        can_estimate(neighbor_coordinate, neighbor_global_location@),
    ensures
        (placement.0.0 as int, placement.0.1 as int) == estimated_coordinate(
            neighbor_coordinate,
            my_location,
        ),
        placement.1@ == neighbor_global_location@.push(my_location),
{
    let step = my_location.offset();
    let x: i16 = neighbor_coordinate.0 * 2 + step.0;
    let y: i16 = neighbor_coordinate.1 * 2 + step.1;
    ((x, y), neighbor_global_location.extended(my_location))
}

/// As `estimate`, for any placement: nothing comes back where the coordinate
/// cannot be doubled within 16 bits or the path is full.
pub fn try_estimate(
    neighbor_coordinate: Coordinate,
    neighbor_global_location: &GlobalLocation,
    my_location: LocalNetworkLocation,
) -> (placement: Option<(Coordinate, GlobalLocation)>)
    ensures
        placement.is_some() <==> can_estimate(neighbor_coordinate, neighbor_global_location@),
        placement matches Some(p) ==> {
            &&& (p.0.0 as int, p.0.1 as int) == estimated_coordinate(
                neighbor_coordinate,
                my_location,
            )
            &&& p.1@ == neighbor_global_location@.push(my_location)
        },
{
    if placement_can_be_extended(neighbor_coordinate, neighbor_global_location) {
        Some(estimate(neighbor_coordinate, neighbor_global_location, my_location))
    } else {
        None
    }
}

} // verus!
