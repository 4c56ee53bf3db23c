use vstd::prelude::*;
use vstd::string::*;
use crate::pipeline::{PipelineConfig, PipelineModel};

verus! {

/// `i` is the position of the first record named `name`.
pub open spec fn is_first_match(s: Seq<PipelineModel>, name: Seq<char>, i: int) -> bool {
    &&& 0 <= i < s.len()
    &&& s[i].name == name
    &&& forall|j: int| 0 <= j < i ==> #[trigger] s[j].name != name
}

/// Some record is named `name`.
pub open spec fn has_match(s: Seq<PipelineModel>, name: Seq<char>) -> bool {
    exists|i: int| 0 <= i < s.len() && #[trigger] s[i].name == name
}

/// Exactly one record, the one at `i`, is named `name`.
pub open spec fn only_match(s: Seq<PipelineModel>, name: Seq<char>, i: int) -> bool {
    &&& 0 <= i < s.len()
    &&& s[i].name == name
    &&& forall|j: int| 0 <= j < s.len() && j != i ==> #[trigger] s[j].name != name
}

/// The position of the first record named `name`, where there is one.
pub open spec fn first_index(s: Seq<PipelineModel>, name: Seq<char>) -> int {
    choose|i: int| is_first_match(s, name, i)
}

/// The records once the first one named `name`, if any, is taken out.
pub open spec fn removed(s: Seq<PipelineModel>, name: Seq<char>) -> Seq<PipelineModel> {
    if has_match(s, name) {
        s.remove(first_index(s, name))
    } else {
        s
    }
}

/// The names of the records, in order.
pub open spec fn names_of(s: Seq<PipelineModel>) -> Seq<Seq<char>> {
    s.map_values(|p: PipelineModel| p.name)
}

/// Where a name occurs, a first occurrence exists, and `first_index` is it.
pub proof fn lemma_first_index(s: Seq<PipelineModel>, name: Seq<char>)
    requires
        has_match(s, name),
    ensures
        is_first_match(s, name, first_index(s, name)),
    decreases s.len(),
{
    let k = choose|k: int| 0 <= k < s.len() && #[trigger] s[k].name == name;
    if s[0].name == name {
        assert(is_first_match(s, name, 0));
    } else {
        let t = s.drop_first();
        assert(t[k - 1].name == name);
        lemma_first_index(t, name);
        let i = first_index(t, name);
        assert forall|j: int| 0 <= j < i + 1 implies #[trigger] s[j].name != name by {
            if j > 0 {
                assert(s[j] == t[j - 1]);
            }
        }
        assert(is_first_match(s, name, i + 1));
    }
}

/// Adding a record and then reading the records back gives one record more
/// than before, the added one last, and the earlier ones unchanged.
pub proof fn law_add_then_read(s: Seq<PipelineModel>, p: PipelineModel)
    ensures
        s.push(p).len() == s.len() + 1,
        s.push(p).last() == p,
        s.push(p).take(s.len() as int) == s,
{
    assert(s.push(p).take(s.len() as int) =~= s);
}

/// Removing a name that no record has reports that nothing was found and
/// leaves the records as they were, so nothing needs to be written back.
pub proof fn law_remove_absent(s: Seq<PipelineModel>, name: Seq<char>)
    requires
        !has_match(s, name),
    ensures
        removed(s, name) == s,
{
}

/// Removing a name that exactly one record has takes out one record, after
/// which no record has that name, so removing it again changes nothing.
pub proof fn law_remove_only_match(s: Seq<PipelineModel>, name: Seq<char>, i: int)
    requires
        only_match(s, name, i),
    ensures
        removed(s, name).len() == s.len() - 1,
        !has_match(removed(s, name), name),
        removed(removed(s, name), name) == removed(s, name),
{
    lemma_first_index(s, name);
    let f = first_index(s, name);
    assert(f == i);
    let t = s.remove(i);
    assert forall|j: int| 0 <= j < t.len() implies #[trigger] t[j].name != name by {
        if j < i {
            assert(t[j] == s[j]);
        } else {
            assert(t[j] == s[j + 1]);
        }
    }
}

/// The ordered collection of pipeline records. Names are meant to be unique,
/// but nothing enforces it: lookups go by the first record with a name.
#[derive(Debug)]
pub struct Registry {
    pipelines: Vec<PipelineConfig>,
}

impl View for Registry {
    type V = Seq<PipelineModel>;

    closed spec fn view(&self) -> Seq<PipelineModel> {
        self.pipelines@.map_values(|p: PipelineConfig| p@)
    }
}

impl Registry {
    /// An empty registry.
    pub fn new() -> (r: Registry)
        ensures
            r@ == Seq::<PipelineModel>::empty(),
    {
        let r = Registry { pipelines: Vec::new() };
        assert(r@ =~= Seq::<PipelineModel>::empty());
        r
    }

    /// A registry holding the given records, in order.
    pub fn from_records(records: Vec<PipelineConfig>) -> (r: Registry)
        ensures
            r@ == records@.map_values(|p: PipelineConfig| p@),
    {
        Registry { pipelines: records }
    }

    /// The records, in order.
    pub fn records(&self) -> (r: &Vec<PipelineConfig>)
        ensures
            r@.map_values(|p: PipelineConfig| p@) == self@,
    {
        &self.pipelines
    }

    /// The number of records.
    pub fn len(&self) -> (r: usize)
        ensures
            r == self@.len(),
    {
        self.pipelines.len()
    }

    /// The record at position `i`.
    pub fn get(&self, i: usize) -> (r: &PipelineConfig)
        requires
            i < self@.len(),
        ensures
            r@ == self@[i as int],
    {
        &self.pipelines[i]
    }

    /// The position of the first record named `name`, or `None` where no
    /// record has that name.
    pub fn position(&self, name: &str) -> (r: Option<usize>)
        ensures
            match r {
                Some(i) => is_first_match(self@, name@, i as int),
                None => !has_match(self@, name@),
            },
    {
        let target = String::from_str(name);
        let mut i: usize = 0;
        while i < self.pipelines.len()
            invariant
                i <= self@.len(),
                target@ == name@,
                self@.len() == self.pipelines@.len(),
                forall|j: int| 0 <= j < i ==> #[trigger] self@[j].name != name@,
            decreases self.pipelines.len() - i,
        {
            assert(self@[i as int] == self.pipelines@[i as int]@);
            if self.pipelines[i].name == target {
                return Some(i);
            }
            i = i + 1;
        }
        None
    }

    /// The first record named `name`, or `None` where no record has it.
    pub fn find(&self, name: &str) -> (r: Option<&PipelineConfig>)
        ensures
            match r {
                Some(p) => has_match(self@, name@) && p@ == self@[first_index(self@, name@)],
                None => !has_match(self@, name@),
            },
    {
        match self.position(name) {
            Some(i) => {
                proof {
                    lemma_first_index(self@, name@);
                }
                Some(&self.pipelines[i])
            },
            None => None,
        }
    }

    /// Appends a record after all the others.
    pub fn add(&mut self, record: PipelineConfig)
        ensures
            final(self)@ == old(self)@.push(record@),
    {
        self.pipelines.push(record);
        assert(self@ =~= old(self)@.push(record@));
    }

    /// Takes out the first record named `name`. Returns whether there was
    /// one; where there was none the registry is left as it was.
    pub fn remove(&mut self, name: &str) -> (r: bool)
        ensures
            r == has_match(old(self)@, name@),
            final(self)@ == removed(old(self)@, name@),
    {
        match self.position(name) {
            Some(i) => {
                proof {
                    lemma_first_index(old(self)@, name@);
                }
                self.pipelines.remove(i);
                assert(self@ =~= old(self)@.remove(i as int));
                true
            },
            None => false,
        }
    }

    /// The names of the records, in order.
    pub fn names(&self) -> (r: Vec<String>)
        ensures
            r@.map_values(|s: String| s@) == names_of(self@),
    {
        let mut r: Vec<String> = Vec::new();
        let mut i: usize = 0;
        while i < self.pipelines.len()
            invariant
                i <= self.pipelines@.len(),
                r@.len() == i,
                forall|j: int| 0 <= j < i ==> #[trigger] r@[j]@ == self.pipelines@[j].name@,
            decreases self.pipelines.len() - i,
        {
            r.push(self.pipelines[i].name.clone());
            i = i + 1;
        }
        assert(r@.map_values(|s: String| s@) =~= names_of(self@));
        r
    }
}

} // verus!
