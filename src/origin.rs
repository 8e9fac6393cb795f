use vstd::prelude::*;

verus! {

/// The nine named reference points of a rectangle: its corners, the
/// midpoints of its edges and its centre.
#[derive(Debug, Clone, Copy, PartialEq, Eq, Structural, PartialOrd, Ord, Hash)]
pub enum Origin {
    TopLeft,
    TopCenter,
    TopRight,
    CenterLeft,
    Center,
    CenterRight,
    BottomLeft,
    BottomCenter,
    BottomRight,
}

/// The horizontal part of an [`Origin`].
#[derive(Debug, Clone, Copy, PartialEq, Eq, Structural, PartialOrd, Ord, Hash)]
pub enum HorizontalOrigin {
    Left,
    Center,
    Right,
}

/// The vertical part of an [`Origin`].
#[derive(Debug, Clone, Copy, PartialEq, Eq, Structural, PartialOrd, Ord, Hash)]
pub enum VerticalOrigin {
    Top,
    Center,
    Bottom,
}

pub open spec fn horizontal_index(h: HorizontalOrigin) -> int {
    match h {
        HorizontalOrigin::Left => 0,
        HorizontalOrigin::Center => 1,
        HorizontalOrigin::Right => 2,
    }
}

pub open spec fn vertical_index(v: VerticalOrigin) -> int {
    match v {
        VerticalOrigin::Top => 0,
        VerticalOrigin::Center => 1,
        VerticalOrigin::Bottom => 2,
    }
}

pub open spec fn horizontal_of(o: Origin) -> HorizontalOrigin {
    match o {
        Origin::TopLeft | Origin::CenterLeft | Origin::BottomLeft => HorizontalOrigin::Left,
        Origin::TopCenter | Origin::Center | Origin::BottomCenter => HorizontalOrigin::Center,
        Origin::TopRight | Origin::CenterRight | Origin::BottomRight => HorizontalOrigin::Right,
    }
}

/// The origin whose parts are `h` and `v`.
pub open spec fn origin_of(h: HorizontalOrigin, v: VerticalOrigin) -> Origin {
    match (v, h) {
        (VerticalOrigin::Top, HorizontalOrigin::Left) => Origin::TopLeft,
        (VerticalOrigin::Top, HorizontalOrigin::Center) => Origin::TopCenter,
        (VerticalOrigin::Top, HorizontalOrigin::Right) => Origin::TopRight,
        (VerticalOrigin::Center, HorizontalOrigin::Left) => Origin::CenterLeft,
        (VerticalOrigin::Center, HorizontalOrigin::Center) => Origin::Center,
        (VerticalOrigin::Center, HorizontalOrigin::Right) => Origin::CenterRight,
        (VerticalOrigin::Bottom, HorizontalOrigin::Left) => Origin::BottomLeft,
        (VerticalOrigin::Bottom, HorizontalOrigin::Center) => Origin::BottomCenter,
        (VerticalOrigin::Bottom, HorizontalOrigin::Right) => Origin::BottomRight,
    }
}

pub open spec fn vertical_of(o: Origin) -> VerticalOrigin {
    match o {
        Origin::TopLeft | Origin::TopCenter | Origin::TopRight => VerticalOrigin::Top,
        Origin::CenterLeft | Origin::Center | Origin::CenterRight => VerticalOrigin::Center,
        Origin::BottomLeft | Origin::BottomCenter | Origin::BottomRight => VerticalOrigin::Bottom,
    }
}

impl From<Origin> for HorizontalOrigin {
    fn from(o: Origin) -> (r: HorizontalOrigin)
        ensures
            r == horizontal_of(o),
    {
        match o {
            Origin::TopLeft => HorizontalOrigin::Left,
            Origin::TopCenter => HorizontalOrigin::Center,
            Origin::TopRight => HorizontalOrigin::Right,
            Origin::CenterLeft => HorizontalOrigin::Left,
            Origin::Center => HorizontalOrigin::Center,
            Origin::CenterRight => HorizontalOrigin::Right,
            Origin::BottomLeft => HorizontalOrigin::Left,
            Origin::BottomCenter => HorizontalOrigin::Center,
            Origin::BottomRight => HorizontalOrigin::Right,
        }
    }
}

impl vstd::std_specs::convert::FromSpecImpl<Origin> for HorizontalOrigin {
    open spec fn obeys_from_spec() -> bool {
        true
    }

    open spec fn from_spec(o: Origin) -> HorizontalOrigin {
        horizontal_of(o)
    }
}

impl From<Origin> for VerticalOrigin {
    fn from(o: Origin) -> (r: VerticalOrigin)
        ensures
            r == vertical_of(o),
    {
        match o {
            Origin::TopLeft => VerticalOrigin::Top,
            Origin::TopCenter => VerticalOrigin::Top,
            Origin::TopRight => VerticalOrigin::Top,
            Origin::CenterLeft => VerticalOrigin::Center,
            Origin::Center => VerticalOrigin::Center,
            Origin::CenterRight => VerticalOrigin::Center,
            Origin::BottomLeft => VerticalOrigin::Bottom,
            Origin::BottomCenter => VerticalOrigin::Bottom,
            Origin::BottomRight => VerticalOrigin::Bottom,
        }
    }
}

impl vstd::std_specs::convert::FromSpecImpl<Origin> for VerticalOrigin {
    open spec fn obeys_from_spec() -> bool {
        true
    }

    open spec fn from_spec(o: Origin) -> VerticalOrigin {
        vertical_of(o)
    }
}

impl Origin {
    /// The origin in the given column and row.
    pub fn from_parts(h: HorizontalOrigin, v: VerticalOrigin) -> (r: Origin)
        ensures
            r == origin_of(h, v),
    {
        match (v, h) {
            (VerticalOrigin::Top, HorizontalOrigin::Left) => Origin::TopLeft,
            (VerticalOrigin::Top, HorizontalOrigin::Center) => Origin::TopCenter,
            (VerticalOrigin::Top, HorizontalOrigin::Right) => Origin::TopRight,
            (VerticalOrigin::Center, HorizontalOrigin::Left) => Origin::CenterLeft,
            (VerticalOrigin::Center, HorizontalOrigin::Center) => Origin::Center,
            (VerticalOrigin::Center, HorizontalOrigin::Right) => Origin::CenterRight,
            (VerticalOrigin::Bottom, HorizontalOrigin::Left) => Origin::BottomLeft,
            (VerticalOrigin::Bottom, HorizontalOrigin::Center) => Origin::BottomCenter,
            (VerticalOrigin::Bottom, HorizontalOrigin::Right) => Origin::BottomRight,
        }
    }

    /// Where the centre of a box lies relative to this anchor point, in
    /// half-extents along each axis, with Y growing upward: a box anchored
    /// at its top-left corner has its centre half a width to the right and
    /// half a height down, `(1, -1)`.
    pub fn centre_offset_halves(self) -> (r: (i8, i8))
        ensures
            r.0 == 1 - horizontal_index(horizontal_of(self)),
            r.1 == vertical_index(vertical_of(self)) - 1,
    {
        let h: HorizontalOrigin = HorizontalOrigin::from(self);
        let v: VerticalOrigin = VerticalOrigin::from(self);
        (1 - h.halves_from_left() as i8, v.halves_from_top() as i8 - 1)
    }
}

impl HorizontalOrigin {
    /// Distance of this reference line from the left edge, in half widths.
    pub fn halves_from_left(self) -> (r: u8)
        ensures
            r == horizontal_index(self),
    {
        match self {
            HorizontalOrigin::Left => 0,
            HorizontalOrigin::Center => 1,
            HorizontalOrigin::Right => 2,
        }
    }
}

impl VerticalOrigin {
    /// Distance of this reference line from the top edge, in half heights.
    pub fn halves_from_top(self) -> (r: u8)
        ensures
            r == vertical_index(self),
    {
        match self {
            VerticalOrigin::Top => 0,
            VerticalOrigin::Center => 1,
            VerticalOrigin::Bottom => 2,
        }
    }
}

/// Splitting an origin into its horizontal and vertical parts and joining
/// them again gives the same origin, and joining two parts and splitting the
/// result gives the same parts.
pub proof fn lemma_origin_parts_round_trip(o: Origin, h: HorizontalOrigin, v: VerticalOrigin)
    ensures
        origin_of(horizontal_of(o), vertical_of(o)) == o,
        horizontal_of(origin_of(h, v)) == h,
        vertical_of(origin_of(h, v)) == v,
{
}

} // verus!
