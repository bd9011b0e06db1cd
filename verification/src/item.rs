//! Items of the table: named attributes, each name held once.

use vstd::prelude::*;

verus! {

/// The value of one attribute. Only text is ever read; every other kind of
/// value only counts as present.
#[derive(Debug, PartialEq, Eq)]
pub enum Attribute {
    Text(String),
    Other,
}

pub enum AttributeView {
    Text(Seq<char>),
    Other,
}

impl View for Attribute {
    type V = AttributeView;

    open spec fn view(&self) -> AttributeView {
        match self {
            Attribute::Text(text) => AttributeView::Text(text@),
            Attribute::Other => AttributeView::Other,
        }
    }
}

/// One attribute with its name.
#[derive(Debug, PartialEq, Eq)]
pub struct Entry {
    pub name: String,
    pub value: Attribute,
}

/// A set of attributes keyed by name.
#[derive(Debug)]
pub struct Item {
    entries: Vec<Entry>,
}

/// Whether no two of the entries have one name.
pub open spec fn names_differ(entries: Seq<Entry>) -> bool {
    forall|i: int, j: int|
        0 <= i < j < entries.len() ==> (#[trigger] entries[i]).name@ != (#[trigger] entries[j]).name@
}

/// Whether one of the entries is called `name`.
pub open spec fn holds(entries: Seq<Entry>, name: Seq<char>) -> bool {
    exists|i: int| 0 <= i < entries.len() && (#[trigger] entries[i]).name@ == name
}

spec fn place(entries: Seq<Entry>, name: Seq<char>) -> int {
    choose|i: int| 0 <= i < entries.len() && (#[trigger] entries[i]).name@ == name
}

impl View for Item {
    type V = Map<Seq<char>, AttributeView>;

    closed spec fn view(&self) -> Map<Seq<char>, AttributeView> {
        Map::new(
            |name: Seq<char>| holds(self.entries@, name),
            |name: Seq<char>| self.entries@[place(self.entries@, name)].value@,
        )
    }
}

impl DeepView for Item {
    type V = Map<Seq<char>, AttributeView>;

    open spec fn deep_view(&self) -> Map<Seq<char>, AttributeView> {
        self@
    }
}

impl Item {
    #[verifier::type_invariant]
    spec fn well_formed(&self) -> bool {
        names_differ(self.entries@)
    }

    /// An item without attributes.
    pub fn new() -> (item: Item)
        ensures
            item@ == Map::<Seq<char>, AttributeView>::empty(),
    {
        let item = Item { entries: Vec::new() };
        assert(item@ =~= Map::<Seq<char>, AttributeView>::empty());
        item
    }

    fn find(&self, name: &String) -> (found: Option<usize>)
        ensures
            match found {
                Some(i) => i < self.entries@.len() && self.entries@[i as int].name@ == name@,
                None => !holds(self.entries@, name@),
            },
    {
        let mut i: usize = 0;
        while i < self.entries.len()
            invariant
                i <= self.entries@.len(),
                forall|k: int| 0 <= k < i ==> (#[trigger] self.entries@[k]).name@ != name@,
            decreases self.entries@.len() - i,
        {
            if self.entries[i].name == *name {
                return Some(i);
            }
            i += 1;
        }
        None
    }

    /// The attribute called `name`, if the item has one.
    pub fn get(&self, name: &str) -> (found: Option<&Attribute>)
        ensures
            match found {
                Some(value) => self@.contains_key(name@) && self@[name@] == value@,
                None => !self@.contains_key(name@),
            },
    {
        proof {
            use_type_invariant(self);
        }
        let wanted = String::from_str(name);
        match self.find(&wanted) {
            Some(i) => {
                assert(holds(self.entries@, name@));
                assert(place(self.entries@, name@) == i as int);
                Some(&self.entries[i].value)
            },
            None => None,
        }
    }

    /// Sets the attribute called `name`, in place of any that the item had
    /// under that name.
    pub fn insert(&mut self, name: String, value: Attribute)
        ensures
            final(self)@ == old(self)@.insert(name@, value@),
    {
        proof {
            use_type_invariant(&*self);
        }
        let ghost before = self.entries@;
        let entry = Entry { name, value };
        let found = self.find(&entry.name);
        let mut entries: Vec<Entry> = Vec::new();
        std::mem::swap(&mut self.entries, &mut entries);
        match found {
            Some(i) => {
                entries.set(i, entry);
            },
            None => {
                entries.push(entry);
            },
        }
        proof {
            let after = entries@;
            assert(names_differ(after));
            assert forall|key: Seq<char>| holds(after, key) <==> (key == name@ || holds(before, key)) by {
                if holds(before, key) {
                    let k = place(before, key);
                    assert(after[k].name@ == key);
                }
                if key == name@ {
                    if holds(before, name@) {
                        let k = place(before, name@);
                        assert(after[k].name@ == key);
                    } else {
                        assert(after[after.len() - 1].name@ == key);
                    }
                }
                if holds(after, key) && key != name@ {
                    let k = place(after, key);
                    assert(before[k].name@ == key);
                }
            }
            assert forall|key: Seq<char>| holds(after, key) implies #[trigger] after[place(after, key)].value@ == (
            if key == name@ {
                value@
            } else {
                before[place(before, key)].value@
            }) by {
                let k = place(after, key);
                if key != name@ {
                    assert(before[k].name@ == key);
                    assert(place(before, key) == k);
                }
            }
        }
        self.entries = entries;
        assert(self@ =~= old(self)@.insert(name@, value@));
    }

    /// The attributes, each name once.
    pub fn entries(&self) -> (entries: &Vec<Entry>)
        ensures
            names_differ(entries@),
            forall|i: int|
                0 <= i < entries@.len() ==> self@.contains_key((#[trigger] entries@[i]).name@)
                    && self@[entries@[i].name@] == entries@[i].value@,
            forall|name: Seq<char>| self@.contains_key(name) ==> holds(entries@, name),
    {
        proof {
            use_type_invariant(self);
            assert forall|i: int| 0 <= i < self.entries@.len() implies self@.contains_key(
                (#[trigger] self.entries@[i]).name@,
            ) && self@[self.entries@[i].name@] == self.entries@[i].value@ by {
                let name = self.entries@[i].name@;
                assert(holds(self.entries@, name));
                assert(place(self.entries@, name) == i);
            }
        }
        &self.entries
    }
}

} // verus!
