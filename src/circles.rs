//! Adding a circle, by its radius, to a circle given by its diameter.
use vstd::prelude::*;

verus! {

pub struct Circle {
    pub r: i32,
}

pub struct DiameterCircle {
    pub d: i32,
}

impl std::ops::Add<Circle> for DiameterCircle {
    type Output = DiameterCircle;

    /// A circle whose diameter is this one's plus twice the other's radius.
    fn add(self, other: Circle) -> (r: DiameterCircle) {
        DiameterCircle { d: self.d + other.r * 2 }
    }
}

impl vstd::std_specs::ops::AddSpecImpl<Circle> for DiameterCircle {
    open spec fn obeys_add_spec() -> bool {
        true
    }

    open spec fn add_req(self, other: Circle) -> bool {
        &&& i32::MIN <= other.r * 2 <= i32::MAX
        &&& i32::MIN <= self.d + other.r * 2 <= i32::MAX
    }

    open spec fn add_spec(self, other: Circle) -> DiameterCircle {
        DiameterCircle { d: (self.d + other.r * 2) as i32 }
    }
}

} // verus!
