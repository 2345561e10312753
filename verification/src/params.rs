use vstd::prelude::*;
use crate::bundle::{OscValue, OscValueView};
use crate::level::Level;
use crate::text::str_eq;

verus! {

/// One avatar parameter as it was last heard from the avatar runtime.
#[derive(Clone, Debug, PartialEq, Eq)]
pub struct ParamEntry {
    pub name: String,
    pub value: OscValue,
}

/// The avatar parameters heard so far, each name with its latest value.
#[derive(Clone, Debug, PartialEq, Eq)]
pub struct AvatarParameters {
    pub entries: Vec<ParamEntry>,
}

/// The value that the first entry named `name` holds, among the first `upto` entries.
pub open spec fn lookup(entries: Seq<ParamEntry>, name: Seq<char>, upto: int) -> Option<
    OscValueView,
>
    decreases upto,
{
    if upto <= 0 || upto > entries.len() {
        None
    } else {
        match lookup(entries, name, upto - 1) {
            Some(v) => Some(v),
            None => if entries[upto - 1].name@ == name {
                Some(entries[upto - 1].value@)
            } else {
                None
            },
        }
    }
}

/// No entry among the first `upto` is named `name`.
pub open spec fn absent(entries: Seq<ParamEntry>, name: Seq<char>, upto: int) -> bool {
    forall|j: int| 0 <= j < upto ==> (#[trigger] entries[j]).name@ != name
}

proof fn lemma_lookup_absent(entries: Seq<ParamEntry>, name: Seq<char>, upto: int)
    requires
        0 <= upto <= entries.len(),
        absent(entries, name, upto),
    ensures
        lookup(entries, name, upto) is None,
    decreases upto,
{
    if upto > 0 {
        lemma_lookup_absent(entries, name, upto - 1);
    }
}

proof fn lemma_lookup_found(entries: Seq<ParamEntry>, name: Seq<char>, at: int, upto: int)
    requires
        0 <= at < upto <= entries.len(),
        absent(entries, name, at),
        entries[at].name@ == name,
    ensures
        lookup(entries, name, upto) == Some(entries[at].value@),
    decreases upto,
{
    if upto == at + 1 {
        lemma_lookup_absent(entries, name, at);
    } else {
        lemma_lookup_found(entries, name, at, upto - 1);
    }
}

proof fn lemma_lookup_same_names(a: Seq<ParamEntry>, b: Seq<ParamEntry>, name: Seq<char>, upto: int)
    requires
        0 <= upto <= a.len(),
        upto <= b.len(),
        forall|j: int| 0 <= j < upto && (#[trigger] a[j]).name@ == name ==> a[j].value@ == b[j].value@,
        forall|j: int| 0 <= j < upto ==> (#[trigger] a[j]).name@ == b[j].name@,
    ensures
        lookup(a, name, upto) == lookup(b, name, upto),
    decreases upto,
{
    if upto > 0 {
        lemma_lookup_same_names(a, b, name, upto - 1);
    }
}

impl AvatarParameters {
    /// The value of the parameter `name`, if it was heard.
    pub open spec fn spec_get(&self, name: Seq<char>) -> Option<OscValueView> {
        lookup(self.entries@, name, self.entries@.len() as int)
    }

    /// Whether `name` is a boolean parameter that is switched on.
    pub open spec fn is_true_spec(&self, name: Seq<char>) -> bool {
        self.spec_get(name) == Some(OscValueView::Bool(true))
    }

    /// Whether `name` is an integer parameter that holds `wanted`.
    pub open spec fn is_int_spec(&self, name: Seq<char>, wanted: i32) -> bool {
        self.spec_get(name) == Some(OscValueView::Int(wanted))
    }

    /// Nothing heard yet.
    pub fn new() -> (p: AvatarParameters)
        ensures
            forall|name: Seq<char>| p.spec_get(name) is None,
    {
        AvatarParameters { entries: Vec::new() }
    }

    fn position(&self, name: &str) -> (r: Option<usize>)
        ensures
            match r {
                Some(i) => i < self.entries@.len() && self.entries@[i as int].name@ == name@
                    && absent(self.entries@, name@, i as int),
                None => absent(self.entries@, name@, self.entries@.len() as int),
            },
    {
        let mut i: usize = 0;
        while i < self.entries.len()
            invariant
                i <= self.entries@.len(),
                absent(self.entries@, name@, i as int),
            decreases self.entries@.len() - i,
        {
            if str_eq(self.entries[i].name.as_str(), name) {
                return Some(i);
            }
            i += 1;
        }
        None
    }

    /// The value of the parameter `name`, if it was heard.
    pub fn get(&self, name: &str) -> (r: Option<&OscValue>)
        ensures
            match r {
                Some(v) => self.spec_get(name@) == Some(v@),
                None => self.spec_get(name@) is None,
            },
    {
        match self.position(name) {
            Some(i) => {
                proof {
                    lemma_lookup_found(
                        self.entries@,
                        name@,
                        i as int,
                        self.entries@.len() as int,
                    );
                }
                Some(&self.entries[i].value)
            },
            None => {
                proof {
                    lemma_lookup_absent(self.entries@, name@, self.entries@.len() as int);
                }
                None
            },
        }
    }

    /// Records `value` as the latest value of `name`; every other parameter keeps its own.
    pub fn insert(&mut self, name: String, value: OscValue)
        ensures
            final(self).spec_get(name@) == Some(value@),
            forall|other: Seq<char>|
                other != name@ ==> final(self).spec_get(other) == old(self).spec_get(other),
    {
        let ghost before = self.entries@;
        let ghost key = name@;
        let ghost val = value@;
        match self.position(name.as_str()) {
            Some(i) => {
                self.entries[i] = ParamEntry { name, value };
                proof {
                    let after = self.entries@;
                    lemma_lookup_found(after, key, i as int, after.len() as int);
                    assert forall|other: Seq<char>| other != key implies lookup(
                        after,
                        other,
                        after.len() as int,
                    ) == lookup(before, other, before.len() as int) by {
                        lemma_lookup_same_names(after, before, other, after.len() as int);
                    }
                }
            },
            None => {
                self.entries.push(ParamEntry { name, value });
                proof {
                    let after = self.entries@;
                    let n = before.len() as int;
                    lemma_lookup_found(after, key, n, n + 1);
                    assert forall|other: Seq<char>| other != key implies lookup(
                        after,
                        other,
                        after.len() as int,
                    ) == lookup(before, other, before.len() as int) by {
                        lemma_lookup_same_names(after, before, other, n);
                    }
                }
            },
        }
    }

    /// Whether `name` is a boolean parameter that is switched on.
    pub fn is_true(&self, name: &str) -> (r: bool)
        ensures
            r == self.is_true_spec(name@),
    {
        match self.get(name) {
            Some(OscValue::Bool(b)) => *b,
            _ => false,
        }
    }

    /// Whether `name` is an integer parameter that holds `wanted`.
    pub fn is_int(&self, name: &str, wanted: i32) -> (r: bool)
        ensures
            r == self.is_int_spec(name@, wanted),
    {
        match self.get(name) {
            Some(OscValue::Int(i)) => *i == wanted,
            _ => false,
        }
    }

    /// Whether `name` is a real-valued parameter above `threshold`.
    pub fn float_above(&self, name: &str, threshold: Level) -> (r: bool)
        ensures
            r == (self.spec_get(name@) matches Some(OscValueView::Float(x)) && x > threshold),
    {
        match self.get(name) {
            Some(OscValue::Float(x)) => *x > threshold,
            _ => false,
        }
    }
}

} // verus!
