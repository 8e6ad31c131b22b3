use vstd::prelude::*;

verus! {

/// A country together with the cities known for it.
pub struct Country {
    pub name: String,
    pub cities: Vec<String>,
}

impl Country {
    /// A country of the given name, with no cities yet.
    pub fn new(name: &str) -> (c: Country)
        ensures
            c.name@ == name@,
            c.cities@.len() == 0,
    {
        Country { name: name.to_owned(), cities: Vec::new() }
    }

    /// Append the given cities, in order, keeping the ones already there.
    pub fn add_cities(&mut self, cities: &[&str])
        ensures
            final(self).name == old(self).name,
            final(self).cities.deep_view() == old(self).cities.deep_view() + cities.deep_view(),
    {
        let mut i: usize = 0;
        while i < cities.len()
            invariant
                i <= cities.len(),
                self.name == old(self).name,
                self.cities.deep_view() == old(self).cities.deep_view() + cities.deep_view().take(
                    i as int,
                ),
            decreases cities.len() - i,
        {
            let ghost pre = self.cities.deep_view();
            self.cities.push(cities[i].to_owned());
            proof {
                assert(self.cities.deep_view() =~= pre.push(cities.deep_view()[i as int]));
                assert(self.cities.deep_view() =~= old(self).cities.deep_view()
                    + cities.deep_view().take(i + 1));
            }
            i += 1;
        }
        proof {
            assert(cities.deep_view().take(cities.len() as int) =~= cities.deep_view());
        }
    }
}

} // verus!
