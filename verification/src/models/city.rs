//! The city record and what can be done with it.

use crate::repositories::bind_value::{BindValue, BindValueView};
use crate::repositories::deletable::Deletable;
use crate::repositories::insertable::Insertable;
use crate::repositories::listable::{FilterOp, FilterOpView, FilterView, Listable};
use crate::repositories::updatable::Updatable;
use crate::resources::city_resource::CityResource;
use vstd::prelude::*;

verus! {

/// A city as stored. A city that is yet to be inserted carries the
/// identifier zero; the storage assigns the real one.
#[derive(Debug, PartialEq, Eq)]
pub struct City {
    pub id: i64,
    pub name: String,
    pub region: String,
}

/// The mathematical value of a [`City`].
pub struct CityView {
    pub id: int,
    pub name: Seq<char>,
    pub region: Seq<char>,
}

impl View for City {
    type V = CityView;

    open spec fn view(&self) -> CityView {
        CityView { id: self.id as int, name: self.name@, region: self.region@ }
    }
}

/// The filter on the name, if one is asked for: a partial match.
pub open spec fn name_filter(name: Option<Seq<char>>) -> Seq<FilterView> {
    match name {
        Some(name) => seq![("name"@, FilterOpView::ILike(name))],
        None => Seq::empty(),
    }
}

/// The filter on the region, if one is asked for: an exact match.
pub open spec fn region_filter(region: Option<Seq<char>>) -> Seq<FilterView> {
    match region {
        Some(region) => seq![("region"@, FilterOpView::Eq(region))],
        None => Seq::empty(),
    }
}

impl Listable for CityResource {
    open spec fn spec_table() -> Seq<char> {
        "cities"@
    }

    fn table() -> (t: &'static str) {
        "cities"
    }

    open spec fn spec_columns() -> Seq<Seq<char>> {
        seq!["id"@, "name"@, "region"@]
    }

    fn columns() -> (c: &'static [&'static str]) {
        let c: &'static [&'static str] = &["id", "name", "region"];
        assert(c.deep_view() =~= Self::spec_columns());
        c
    }

    /// The name filter first, then the region filter.
    open spec fn spec_filters(&self) -> Seq<FilterView> {
        name_filter(self@.name) + region_filter(self@.region)
    }

    fn filters(&self) -> (f: Vec<(&'static str, FilterOp)>) {
        let mut v: Vec<(&'static str, FilterOp)> = Vec::new();
        if let Some(name) = &self.name {
            v.push(("name", FilterOp::ILike(name.clone())));
        }
        assert(v.deep_view() =~= name_filter(self@.name));
        if let Some(region) = &self.region {
            v.push(("region", FilterOp::Eq(region.clone())));
        }
        assert(v.deep_view() =~= self.spec_filters());
        v
    }

    open spec fn spec_page(&self) -> Option<u32> {
        self.page
    }

    fn page(&self) -> (p: Option<u32>) {
        self.page
    }

    open spec fn spec_per_page(&self) -> Option<u32> {
        self.per_page
    }

    fn per_page(&self) -> (p: Option<u32>) {
        self.per_page
    }
}

impl Insertable for City {
    open spec fn spec_table() -> Seq<char> {
        "cities"@
    }

    fn table() -> (t: &'static str) {
        "cities"
    }

    open spec fn spec_columns() -> Seq<Seq<char>> {
        seq!["name"@, "region"@]
    }

    fn columns() -> (c: &'static [&'static str]) {
        let c: &'static [&'static str] = &["name", "region"];
        assert(c.deep_view() =~= <Self as Insertable>::spec_columns());
        c
    }

    open spec fn spec_bind(&self) -> Seq<BindValueView> {
        seq![BindValueView::Text(self@.name), BindValueView::Text(self@.region)]
    }

    proof fn lemma_bind_len(&self) {
    }

    fn bind(self) -> (values: Vec<BindValue>) {
        let mut values: Vec<BindValue> = Vec::new();
        values.push(BindValue::Text(self.name));
        values.push(BindValue::Text(self.region));
        assert(values.deep_view() =~= self.spec_bind());
        values
    }
}

impl Updatable for City {
    open spec fn spec_table() -> Seq<char> {
        "cities"@
    }

    fn table() -> (t: &'static str) {
        "cities"
    }

    open spec fn spec_id_column() -> Seq<char> {
        "id"@
    }

    fn id_column() -> (c: &'static str) {
        "id"
    }

    open spec fn spec_columns() -> Seq<Seq<char>> {
        seq!["name"@, "region"@]
    }

    proof fn lemma_columns_exclude_id() {
        reveal_strlit("id");
        reveal_strlit("name");
        reveal_strlit("region");
        let columns = <Self as Updatable>::spec_columns();
        assert forall|i: int| 0 <= i < columns.len() implies columns[i] != "id"@ by {
            assert(columns[i].len() != "id"@.len());
        }
    }

    fn columns() -> (c: &'static [&'static str]) {
        let c: &'static [&'static str] = &["name", "region"];
        assert(c.deep_view() =~= <Self as Updatable>::spec_columns());
        c
    }

    open spec fn spec_id(&self) -> BindValueView {
        BindValueView::Integer(self@.id)
    }

    open spec fn spec_bind_update(&self) -> Seq<BindValueView> {
        seq![
            BindValueView::Text(self@.name),
            BindValueView::Text(self@.region),
            BindValueView::Integer(self@.id),
        ]
    }

    proof fn lemma_bind_update_shape(&self) {
    }

    fn bind_update(self) -> (values: Vec<BindValue>) {
        let mut values: Vec<BindValue> = Vec::new();
        values.push(BindValue::Text(self.name));
        values.push(BindValue::Text(self.region));
        values.push(BindValue::Integer(self.id));
        assert(values.deep_view() =~= self.spec_bind_update());
        values
    }
}

impl Deletable for City {
    open spec fn spec_table() -> Seq<char> {
        "cities"@
    }

    fn table() -> (t: &'static str) {
        "cities"
    }

    open spec fn spec_id_column() -> Seq<char> {
        "id"@
    }

    fn id_column() -> (c: &'static str) {
        "id"
    }
}

} // verus!
