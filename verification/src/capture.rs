//! The named fields extracted from one log line.

use vstd::prelude::*;

verus! {

/// The text of the first field called `name`, if there is one.
pub open spec fn lookup(fields: Seq<(Seq<char>, Seq<char>)>, name: Seq<char>) -> Option<Seq<char>>
    decreases fields.len(),
{
    if fields.len() == 0 {
        None
    } else {
        match lookup(fields.drop_last(), name) {
            Some(value) => Some(value),
            None => if fields.last().0 == name {
                Some(fields.last().1)
            } else {
                None
            },
        }
    }
}

/// The fields that the first `n` capture groups give: one `(name, text)` pair,
/// in group order, for every group that has a name and took part in the match.
pub open spec fn named_fields(
    names: Seq<Option<Seq<char>>>,
    groups: Seq<Option<Seq<char>>>,
    n: nat,
) -> Seq<(Seq<char>, Seq<char>)>
    decreases n,
{
    if n == 0 {
        Seq::empty()
    } else {
        let rest = named_fields(names, groups, (n - 1) as nat);
        let i = n - 1;
        if i < names.len() && i < groups.len() && names[i] is Some && groups[i] is Some {
            rest.push((names[i]->0, groups[i]->0))
        } else {
            rest
        }
    }
}

/// All the fields that a list of group names and a list of group texts give.
pub open spec fn all_named_fields(
    names: Seq<Option<Seq<char>>>,
    groups: Seq<Option<Seq<char>>>,
) -> Seq<(Seq<char>, Seq<char>)> {
    named_fields(names, groups, groups.len())
}

/// A field found in a prefix of the list is the field found in the whole list.
pub proof fn lemma_lookup_prefix(fields: Seq<(Seq<char>, Seq<char>)>, name: Seq<char>, k: int)
    requires
        0 <= k <= fields.len(),
        lookup(fields.take(k), name) is Some,
    ensures
        lookup(fields, name) == lookup(fields.take(k), name),
    decreases fields.len() - k,
{
    if k == fields.len() {
        assert(fields.take(k) =~= fields);
    } else {
        assert(fields.take(k + 1).drop_last() =~= fields.take(k));
        lemma_lookup_prefix(fields, name, k + 1);
    }
}

/// The named fields of one recognised log line, in the order in which the
/// line's pattern declares them.
#[derive(Debug)]
pub struct LogCapture {
    entries: Vec<(String, String)>,
}

impl View for LogCapture {
    type V = Seq<(Seq<char>, Seq<char>)>;

    closed spec fn view(&self) -> Seq<(Seq<char>, Seq<char>)> {
        self.entries.deep_view()
    }
}

impl LogCapture {
    /// A capture without fields.
    pub fn new() -> (r: LogCapture)
        ensures
            r@ == Seq::<(Seq<char>, Seq<char>)>::empty(),
    {
        let r = LogCapture { entries: Vec::new() };
        assert(r@ =~= Seq::<(Seq<char>, Seq<char>)>::empty());
        r
    }

    /// Appends the field `name` with the text `value`.
    pub fn push(&mut self, name: &str, value: &str)
        ensures
            final(self)@ == old(self)@.push((name@, value@)),
    {
        let entry = (name.to_owned(), value.to_owned());
        self.entries.push(entry);
        assert(self@ =~= old(self)@.push((name@, value@)));
    }

    /// The number of fields.
    pub fn len(&self) -> (r: usize)
        ensures
            r == self@.len(),
    {
        self.entries.len()
    }

    /// Pairs group names with group texts: every group that has a name and
    /// took part in the match becomes a field.
    pub fn from_groups(names: &Vec<Option<String>>, groups: &Vec<Option<String>>) -> (r: LogCapture)
        ensures
            r@ == all_named_fields(names.deep_view(), groups.deep_view()),
    {
        let mut entries: Vec<(String, String)> = Vec::new();
        let mut i: usize = 0;
        while i < groups.len()
            invariant
                i <= groups.len(),
                entries.deep_view() == named_fields(
                    names.deep_view(),
                    groups.deep_view(),
                    i as nat,
                ),
            decreases groups.len() - i,
        {
            if i < names.len() {
                match (&names[i], &groups[i]) {
                    (Some(name), Some(text)) => {
                        let ghost before = entries.deep_view();
                        entries.push((name.clone(), text.clone()));
                        assert(entries.deep_view() =~= before.push((name@, text@)));
                    },
                    _ => {},
                }
            }
            i += 1;
        }
        LogCapture { entries }
    }

    /// The text of the field `name`; `None` if the line has no such field.
    pub fn get(&self, name: &str) -> (r: Option<&String>)
        ensures
            r.deep_view() == lookup(self@, name@),
    {
        let key = name.to_owned();
        let mut i: usize = 0;
        while i < self.entries.len()
            invariant
                i <= self.entries.len(),
                key@ == name@,
                lookup(self@.take(i as int), name@) is None,
            decreases self.entries.len() - i,
        {
            proof {
                assert(self@.take(i + 1).drop_last() =~= self@.take(i as int));
            }
            if self.entries[i].0 == key {
                proof {
                    lemma_lookup_prefix(self@, name@, i + 1);
                }
                return Some(&self.entries[i].1);
            }
            i += 1;
        }
        assert(self@.take(i as int) =~= self@);
        None
    }
}

} // verus!
