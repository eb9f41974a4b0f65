use vstd::prelude::*;
use vstd::string::*;

verus! {

/// The value of one attribute of a stored record, as far as a todo is read
/// from it: its text where it is string-typed, and otherwise only that it is
/// not.
#[derive(Debug, PartialEq, Eq)]
pub enum AttributeValue {
    S(String),
    NotString,
}

/// An attribute value with its text as a sequence of characters.
pub enum AttributeValueView {
    S(Seq<char>),
    NotString,
}

impl View for AttributeValue {
    type V = AttributeValueView;

    open spec fn view(&self) -> AttributeValueView {
        match self {
            AttributeValue::S(text) => AttributeValueView::S(text@),
            AttributeValue::NotString => AttributeValueView::NotString,
        }
    }
}

impl Clone for AttributeValue {
    fn clone(&self) -> (copy: AttributeValue)
        ensures
            copy@ == self@,
    {
        match self {
            AttributeValue::S(text) => AttributeValue::S(text.clone()),
            AttributeValue::NotString => AttributeValue::NotString,
        }
    }
}

/// A named attribute of a record.
#[derive(Debug, PartialEq, Eq)]
pub struct Attribute {
    pub name: String,
    pub value: AttributeValue,
}

impl Clone for Attribute {
    fn clone(&self) -> (copy: Attribute)
        ensures
            copy.name@ == self.name@,
            copy.value@ == self.value@,
    {
        Attribute { name: self.name.clone(), value: self.value.clone() }
    }
}

/// What a record holds: its attribute values by name.
pub type ItemView = Map<Seq<char>, AttributeValueView>;

/// A record of the table: attributes under pairwise different names.
#[derive(Debug)]
pub struct Item {
    attributes: Vec<Attribute>,
}

impl Item {
    /// No name occurs twice.
    #[verifier::type_invariant]
    spec fn wf(&self) -> bool {
        forall|i: int, j: int|
            0 <= i < j < self.attributes@.len() ==> self.attributes@[i].name@
                != self.attributes@[j].name@
    }

    /// Whether the attribute at `i` carries `name`.
    spec fn named_at(&self, name: Seq<char>, i: int) -> bool {
        0 <= i < self.attributes@.len() && self.attributes@[i].name@ == name
    }

    /// The names the record holds, in the order in which they were first set.
    pub closed spec fn names(&self) -> Seq<Seq<char>> {
        self.attributes@.map(|i: int, attribute: Attribute| attribute.name@)
    }

    /// An empty record.
    pub fn new() -> (item: Item)
        ensures
            item@ == Map::<Seq<char>, AttributeValueView>::empty(),
    {
        let item = Item { attributes: Vec::new() };
        assert(item@ =~= Map::<Seq<char>, AttributeValueView>::empty());
        item
    }

    /// The position of the attribute called `name`, if there is one.
    fn position(&self, name: &String) -> (found: Option<usize>)
        ensures
            match found {
                Some(i) => self.named_at(name@, i as int),
                None => forall|i: int| !self.named_at(name@, i),
            },
    {
        proof {
            use_type_invariant(self);
        }
        let mut i: usize = 0;
        while i < self.attributes.len()
            invariant
                i <= self.attributes@.len(),
                forall|j: int| 0 <= j < i ==> !self.named_at(name@, j),
            decreases self.attributes@.len() - i,
        {
            if self.attributes[i].name == *name {
                return Some(i);
            }
            i += 1;
        }
        None
    }

    /// Sets the attribute `name` to `value`, in place of an earlier value
    /// under that name.
    pub fn insert(&mut self, name: String, value: AttributeValue)
        ensures
            final(self)@ == old(self)@.insert(name@, value@),
    {
        proof {
            use_type_invariant(&*self);
        }
        let ghost before = *self;
        let ghost key = name@;
        let ghost val = value@;
        let found = self.position(&name);
        // The list is changed outside the record, and put back once it is
        // shown to hold each name once.
        let mut attributes = Vec::new();
        std::mem::swap(&mut attributes, &mut self.attributes);
        let place: usize = match found {
            Some(i) => {
                assert(before.named_at(key, i as int));
                attributes[i] = Attribute { name, value };
                i
            },
            None => {
                attributes.push(Attribute { name, value });
                attributes.len() - 1
            },
        };
        proof {
            let after = Item { attributes };
            assert forall|j: int| 0 <= j < after.attributes@.len() && j != place implies
                before.named_at(#[trigger] after.attributes@[j].name@, j)
                && before.attributes@[j].value@ == after.attributes@[j].value@
                && after.attributes@[j].name@ != key by {
                if found.is_some() {
                    assert(before.attributes@[j].name@ != before.attributes@[place as int].name@);
                } else {
                    assert(!before.named_at(key, j));
                }
            }
            assert(after.wf());
            assert(after.named_at(key, place as int));
            assert forall|k: Seq<char>| #[trigger]
                after@.contains_key(k) implies before@.insert(key, val).contains_key(k)
                && before@.insert(key, val)[k] == after@[k] by {
                let j = choose|j: int| after.named_at(k, j);
                after.lemma_value_at(j);
                if j != place {
                    before.lemma_value_at(j);
                }
            }
            assert forall|k: Seq<char>| #[trigger]
                before@.insert(key, val).contains_key(k) implies after@.contains_key(k) by {
                if k != key {
                    let j = choose|j: int| before.named_at(k, j);
                    assert(after.named_at(k, j));
                }
            }
            assert(after@ =~= before@.insert(key, val));
        }
        self.attributes = attributes;
    }

    /// With no name twice, the record holds under each of its names the
    /// value that stands beside it.
    proof fn lemma_value_at(&self, i: int)
        requires
            self.wf(),
            0 <= i < self.attributes@.len(),
        ensures
            self@.contains_key(self.attributes@[i].name@),
            self@[self.attributes@[i].name@] == self.attributes@[i].value@,
    {
        let name = self.attributes@[i].name@;
        assert(self.named_at(name, i));
        let j = choose|j: int| self.named_at(name, j);
        assert(j == i);
    }

    /// The value under `name`, if the record has that attribute.
    pub fn get(&self, name: &str) -> (value: Option<&AttributeValue>)
        ensures
            match value {
                Some(found) => self@.contains_key(name@) && self@[name@] == found@,
                None => !self@.contains_key(name@),
            },
    {
        proof {
            use_type_invariant(self);
        }
        let name = String::from_str(name);
        match self.position(&name) {
            Some(i) => {
                proof {
                    self.lemma_value_at(i as int);
                }
                Some(&self.attributes[i].value)
            },
            None => None,
        }
    }

    /// The attributes one by one, each name once.
    pub fn attributes(&self) -> (attributes: &Vec<Attribute>)
        ensures
            attributes@.len() == self.names().len(),
            forall|i: int|
                0 <= i < attributes@.len() ==> {
                    &&& (#[trigger] attributes@[i]).name@ == self.names()[i]
                    &&& self@.contains_key(attributes@[i].name@)
                    &&& self@[attributes@[i].name@] == attributes@[i].value@
                },
            forall|name: Seq<char>| self@.contains_key(name) ==> self.names().contains(name),
    {
        proof {
            use_type_invariant(self);
            assert forall|i: int| 0 <= i < self.attributes@.len() implies {
                &&& self@.contains_key((#[trigger] self.attributes@[i]).name@)
                &&& self@[self.attributes@[i].name@] == self.attributes@[i].value@
            } by {
                self.lemma_value_at(i);
            }
            assert forall|name: Seq<char>| self@.contains_key(name) implies self.names().contains(
                name,
            ) by {
                let j = choose|j: int| self.named_at(name, j);
                assert(self.names()[j] == name);
            }
        }
        &self.attributes
    }
}

impl Clone for Item {
    fn clone(&self) -> (copy: Item)
        ensures
            copy@ == self@,
    {
        proof {
            use_type_invariant(self);
        }
        let mut copy = Item::new();
        let mut i: usize = 0;
        while i < self.attributes.len()
            invariant
                i <= self.attributes@.len(),
                self.wf(),
                forall|name: Seq<char>|
                    copy@.contains_key(name) <==> exists|j: int| j < i && self.named_at(name, j),
                forall|j: int|
                    0 <= j < i ==> copy@[(#[trigger] self.attributes@[j]).name@]
                        == self.attributes@[j].value@,
            decreases self.attributes@.len() - i,
        {
            let attribute = self.attributes[i].clone();
            copy.insert(attribute.name, attribute.value);
            proof {
                let added = self.attributes@[i as int].name@;
                assert(self.named_at(added, i as int));
                assert forall|name: Seq<char>| copy@.contains_key(name) implies exists|j: int|
                    j < i + 1 && self.named_at(name, j) by {
                    if name != added {
                        let j = choose|j: int| j < i && self.named_at(name, j);
                        assert(j < i + 1 && self.named_at(name, j));
                    }
                }
                assert forall|j: int| 0 <= j < i + 1 implies copy@[(#[trigger] self.attributes@[j]).name@]
                    == self.attributes@[j].value@ by {
                    if j < i {
                        assert(self.attributes@[j].name@ != added);
                    }
                }
            }
            i += 1;
        }
        proof {
            assert forall|name: Seq<char>| self@.contains_key(name) implies copy@.contains_key(
                name,
            ) && copy@[name] == self@[name] by {
                let j = choose|j: int| self.named_at(name, j);
                assert(j < i && self.named_at(name, j));
                self.lemma_value_at(j);
            }
            assert forall|name: Seq<char>| copy@.contains_key(name) implies self@.contains_key(
                name,
            ) by {
                let j = choose|j: int| j < i && self.named_at(name, j);
                assert(self.named_at(name, j));
            }
            assert(copy@ =~= self@);
        }
        copy
    }
}

impl View for Item {
    type V = Map<Seq<char>, AttributeValueView>;

    closed spec fn view(&self) -> Map<Seq<char>, AttributeValueView> {
        Map::new(
            |name: Seq<char>| exists|i: int| self.named_at(name, i),
            |name: Seq<char>| self.attributes@[choose|i: int| self.named_at(name, i)].value@,
        )
    }
}

} // verus!
