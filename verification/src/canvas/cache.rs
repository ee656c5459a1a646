//! The geometry that a canvas keeps between redraws.
use crate::units::Size;
use vstd::prelude::*;

verus! {

enum State<Geometry> {
    Empty,
    Filled { bounds: Size, geometry: Vec<Geometry> },
}

/// The geometry of the last drawing, kept together with the size it was
/// drawn for.
///
/// A cache never notices by itself that its geometry is stale. It keeps what
/// it has until it is cleared or filled anew.
pub struct Cache<Geometry> {
    state: State<Geometry>,
}

impl<Geometry> View for Cache<Geometry> {
    type V = Option<(Size, Seq<Geometry>)>;

    closed spec fn view(&self) -> Option<(Size, Seq<Geometry>)> {
        match self.state {
            State::Empty => None,
            State::Filled { bounds, geometry } => Some((bounds, geometry@)),
        }
    }
}

/// The geometry that `cache` has for a drawing of size `bounds`: what it
/// holds, if it was drawn for that size.
pub open spec fn kept<Geometry>(cache: Option<(Size, Seq<Geometry>)>, bounds: Size) -> Option<
    Seq<Geometry>,
> {
    match cache {
        Some((drawn_for, geometry)) if drawn_for == bounds => Some(geometry),
        _ => None,
    }
}

impl<Geometry> Cache<Geometry> {
    /// Creates a cache that holds nothing.
    pub fn new() -> (cache: Self)
        ensures
            cache@ is None,
    {
        Cache { state: State::Empty }
    }

    /// Throws away what the cache holds.
    pub fn clear(&mut self)
        ensures
            final(self)@ is None,
    {
        self.state = State::Empty;
    }

    /// Returns the geometry that the cache holds for a drawing of size
    /// `bounds`, if it holds one.
    pub fn lookup(&self, bounds: Size) -> (geometry: Option<&[Geometry]>)
        ensures
            match kept(self@, bounds) {
                Some(held) => geometry matches Some(found) && found@ == held,
                None => geometry is None,
            },
    {
        match &self.state {
            State::Filled { bounds: drawn_for, geometry } => {
                if *drawn_for == bounds {
                    Some(geometry.as_slice())
                } else {
                    None
                }
            },
            State::Empty => None,
        }
    }

    /// Keeps `geometry` as the drawing of size `bounds`, in place of what
    /// was there.
    pub fn store(&mut self, bounds: Size, geometry: Vec<Geometry>)
        ensures
            final(self)@ == Some((bounds, geometry@)),
    {
        self.state = State::Filled { bounds, geometry };
    }
}

} // verus!
