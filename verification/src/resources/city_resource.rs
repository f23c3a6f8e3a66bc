//! The query value that selects cities.

use vstd::prelude::*;

verus! {

/// What a caller may ask of the list of cities: a partial name, an exact
/// region, and a page.
#[derive(Debug, PartialEq, Eq)]
pub struct CityResource {
    /// Keeps the cities whose name contains this text, ignoring case.
    pub name: Option<String>,
    /// Keeps the cities of exactly this region.
    pub region: Option<String>,
    /// The page, counted from one.
    pub page: Option<u32>,
    /// The number of cities on a page.
    pub per_page: Option<u32>,
}

/// The mathematical value of a [`CityResource`].
pub struct CityResourceView {
    pub name: Option<Seq<char>>,
    pub region: Option<Seq<char>>,
    pub page: Option<u32>,
    pub per_page: Option<u32>,
}

impl View for CityResource {
    type V = CityResourceView;

    open spec fn view(&self) -> CityResourceView {
        CityResourceView {
            name: self.name.deep_view(),
            region: self.region.deep_view(),
            page: self.page,
            per_page: self.per_page,
        }
    }
}

impl Default for CityResource {
    /// The query that asks for every city, unpaged.
    fn default() -> (resource: CityResource)
        ensures
            resource@ == (CityResourceView {
                name: None,
                region: None,
                page: None,
                per_page: None,
            }),
    {
        CityResource { name: None, region: None, page: None, per_page: None }
    }
}

} // verus!
