//! A place whose local time is shown.
use vstd::prelude::*;

verus! {

/// A named place, the country it lies in (possibly empty), and its tz database zone.
pub struct Place {
    pub name: String,
    pub country: String,
    pub timezone: String,
}

/// The name, the country and the zone of a place.
pub type PlaceView = (Seq<char>, Seq<char>, Seq<char>);

impl View for Place {
    type V = PlaceView;

    open spec fn view(&self) -> PlaceView {
        (self.name@, self.country@, self.timezone@)
    }
}

/// The views of a sequence of places.
pub open spec fn place_views(v: Seq<Place>) -> Seq<PlaceView> {
    v.map_values(|p: Place| p@)
}

impl Place {
    /// A copy of the place.
    pub fn duplicate(&self) -> (res: Place)
        ensures
            res@ == self@,
    {
        Place { name: self.name.clone(), country: self.country.clone(), timezone: self.timezone.clone() }
    }
}

/// A copy of a list of places.
pub fn copy_places(places: &Vec<Place>) -> (res: Vec<Place>)
    ensures
        place_views(res@) == place_views(places@),
{
    let mut out: Vec<Place> = Vec::new();
    let mut i: usize = 0;
    while i < places.len()
        invariant
            i <= places.len(),
            out@.len() == i,
            place_views(out@) == place_views(places@).take(i as int),
        decreases places.len() - i,
    {
        let p = places[i].duplicate();
        let ghost before = out@;
        out.push(p);
        assert(out@ == before.push(p));
        assert(place_views(out@)[i as int] == places@[i as int]@);
        assert(place_views(out@) =~= place_views(places@).take(i + 1));
        i = i + 1;
    }
    assert(place_views(places@).take(places.len() as int) =~= place_views(places@));
    out
}

} // verus!
