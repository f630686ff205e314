//! Delivery companies: a trait method and an inherent method of the same
//! name that answer differently.
use vstd::prelude::*;
use vstd::string::StringExecFns;

verus! {

pub trait Delivery {
    /// Whether the company sends through the shared delivery service.
    fn send() -> bool;
}

pub struct UPS {
    pub address: String,
}

pub struct Fedex {
    pub address: String,
}

impl Delivery for UPS {
    fn send() -> (r: bool)
        ensures
            !r,
    {
        false
    }
}

impl Delivery for Fedex {
    fn send() -> (r: bool)
        ensures
            !r,
    {
        false
    }
}

impl UPS {
    /// Whether UPS sends on its own.
    pub fn send() -> (r: bool)
        ensures
            r,
    {
        true
    }

    /// "[UPS Address]: " and the address, as displayed.
    pub fn describe(&self) -> (r: String)
        ensures
            r@ == "[UPS Address]: "@ + self.address@,
    {
        let mut r = String::from_str("[UPS Address]: ");
        r.append(self.address.as_str());
        r
    }
}

impl Fedex {
    /// Whether Fedex sends on its own.
    pub fn send() -> (r: bool)
        ensures
            r,
    {
        true
    }

    /// "[Fedex Address]: " and the address, as displayed.
    pub fn describe(&self) -> (r: String)
        ensures
            r@ == "[Fedex Address]: "@ + self.address@,
    {
        let mut r = String::from_str("[Fedex Address]: ");
        r.append(self.address.as_str());
        r
    }
}

} // verus!
