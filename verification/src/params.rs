//! The parameters that a route match captured.

use vstd::prelude::*;

verus! {

/// The views of a list of name and value pairs.
pub open spec fn pairs_view(pairs: Seq<(String, String)>) -> Seq<(Seq<char>, Seq<char>)> {
    pairs.map_values(|e: (String, String)| (e.0@, e.1@))
}

/// The value of the first pair of `params` whose name is `name`.
pub open spec fn first_value(params: Seq<(Seq<char>, Seq<char>)>, name: Seq<char>) -> Option<
    Seq<char>,
>
    decreases params.len(),
{
    if params.len() == 0 {
        None
    } else if params[0].0 == name {
        Some(params[0].1)
    } else {
        first_value(params.skip(1), name)
    }
}

/// The parameters of a matched route: name and captured segment, in the order
/// in which the route declares them.
#[derive(Debug)]
pub struct Params {
    pub entries: Vec<(String, String)>,
}

impl View for Params {
    type V = Seq<(Seq<char>, Seq<char>)>;

    open spec fn view(&self) -> Seq<(Seq<char>, Seq<char>)> {
        pairs_view(self.entries@)
    }
}

impl Params {
    /// No parameters.
    pub fn new() -> (p: Params)
        ensures
            p@ == Seq::<(Seq<char>, Seq<char>)>::empty(),
    {
        let p = Params { entries: Vec::new() };
        assert(p@ =~= Seq::empty());
        p
    }

    /// The parameters given by `entries`, in their order.
    pub fn from_pairs(entries: Vec<(String, String)>) -> (p: Params)
        ensures
            p@ == pairs_view(entries@),
    {
        Params { entries }
    }

    /// The number of parameters.
    pub fn len(&self) -> (n: usize)
        ensures
            n == self@.len(),
    {
        self.entries.len()
    }

    /// Whether there is no parameter.
    pub fn is_empty(&self) -> (r: bool)
        ensures
            r == (self@.len() == 0),
    {
        self.entries.len() == 0
    }

    /// The value of the first parameter named `name`.
    pub fn get(&self, name: &str) -> (r: Option<&String>)
        ensures
            match r {
                Some(value) => first_value(self@, name@) == Some(value@),
                None => first_value(self@, name@) is None,
            },
    {
        let key = name.to_owned();
        let mut i: usize = 0;
        assert(self@.skip(0) =~= self@);
        while i < self.entries.len()
            invariant
                i <= self.entries.len(),
                key@ == name@,
                first_value(self@, name@) == first_value(self@.skip(i as int), name@),
            decreases self.entries.len() - i,
        {
            assert(self@.skip(i as int)[0] == self@[i as int]);
            if self.entries[i].0 == key {
                return Some(&self.entries[i].1);
            }
            assert(self@.skip(i as int).skip(1) =~= self@.skip(i as int + 1));
            i += 1;
        }
        None
    }
}

} // verus!
