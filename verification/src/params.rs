//! Numeric parameters of a control sequence.

use vstd::prelude::*;

verus! {

/// What a list of parameters holds.
pub open spec fn group_views(groups: Seq<Vec<u16>>) -> Seq<Seq<u16>> {
    groups.map_values(|group: Vec<u16>| group@)
}

/// Whether every parameter has a value of its own in front of its subparameters.
pub open spec fn no_group_empty(groups: Seq<Seq<u16>>) -> bool {
    forall|i: int| 0 <= i < groups.len() ==> (#[trigger] groups[i]).len() > 0
}

/// The parameters of a control sequence, in order.
///
/// A parameter is a value, followed by subparameters if there are any: `4:3` is the value 4
/// with the subparameter 3.
#[derive(Debug, PartialEq, Eq)]
pub struct ParamList {
    groups: Vec<Vec<u16>>,
}

impl View for ParamList {
    type V = Seq<Seq<u16>>;

    closed spec fn view(&self) -> Seq<Seq<u16>> {
        group_views(self.groups@)
    }
}

impl ParamList {
    #[verifier::type_invariant]
    spec fn inv(self) -> bool {
        no_group_empty(self@)
    }

    /// The parameters with the given values, each with its subparameters behind it.
    ///
    /// There is no parameter without a value.
    pub fn new(groups: Vec<Vec<u16>>) -> (params: Option<ParamList>)
        ensures
            params is Some <==> no_group_empty(group_views(groups@)),
            params matches Some(p) ==> p@ == group_views(groups@),
    {
        let mut i: usize = 0;
        while i < groups.len()
            invariant
                i <= groups.len(),
                forall|j: int| 0 <= j < i ==> (#[trigger] groups@[j])@.len() > 0,
            decreases groups.len() - i,
        {
            if groups[i].len() == 0 {
                assert(group_views(groups@)[i as int].len() == 0);
                return None;
            }
            i += 1;
        }
        Some(ParamList { groups })
    }

    /// Whether there are no parameters.
    pub fn is_empty(&self) -> (empty: bool)
        ensures
            empty == (self@.len() == 0),
    {
        self.groups.len() == 0
    }

    /// The number of parameters, not counting subparameters.
    pub fn count(&self) -> (count: usize)
        ensures
            count == self@.len(),
    {
        self.groups.len()
    }

    /// A parameter, with its value first and its subparameters behind it.
    pub fn group(&self, i: usize) -> (group: &[u16])
        requires
            i < self@.len(),
        ensures
            group@ == self@[i as int],
            group@.len() > 0,
    {
        proof {
            use_type_invariant(self);
            assert(self@[i as int].len() > 0);
        }
        self.groups[i].as_slice()
    }

    /// The value of a parameter.
    pub fn value(&self, i: usize) -> (value: u16)
        requires
            i < self@.len(),
        ensures
            value == self@[i as int][0],
    {
        self.group(i)[0]
    }
}

impl Clone for ParamList {
    fn clone(&self) -> (params: ParamList)
        ensures
            params@ == self@,
    {
        proof {
            use_type_invariant(self);
        }
        let mut groups: Vec<Vec<u16>> = Vec::new();
        let mut i: usize = 0;
        while i < self.groups.len()
            invariant
                i <= self.groups.len(),
                groups.len() == i,
                forall|j: int| 0 <= j < i ==> (#[trigger] groups@[j])@ == self.groups@[j]@,
            decreases self.groups.len() - i,
        {
            let group: &Vec<u16> = &self.groups[i];
            let mut copied: Vec<u16> = Vec::new();
            let mut k: usize = 0;
            while k < group.len()
                invariant
                    k <= group.len(),
                    copied@ == group@.take(k as int),
                decreases group.len() - k,
            {
                copied.push(group[k]);
                k += 1;
                assert(group@.take(k as int) =~= group@.take(k - 1).push(group@[k - 1]));
            }
            assert(group@.take(k as int) =~= group@);
            groups.push(copied);
            i += 1;
        }
        assert(group_views(groups@) =~= self@);
        ParamList { groups }
    }
}

} // verus!
