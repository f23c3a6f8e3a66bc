//! The payload that creates or updates a city.

use vstd::prelude::*;

verus! {

/// The fields of a city that a caller may set.
#[derive(Debug, PartialEq, Eq)]
pub struct CityRequest {
    pub name: String,
    pub region: String,
}

/// The mathematical value of a [`CityRequest`].
pub struct CityRequestView {
    pub name: Seq<char>,
    pub region: Seq<char>,
}

impl View for CityRequest {
    type V = CityRequestView;

    open spec fn view(&self) -> CityRequestView {
        CityRequestView { name: self.name@, region: self.region@ }
    }
}

} // verus!
