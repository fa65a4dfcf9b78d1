//! Items read from the store, as far as the export looks into them.

use vstd::prelude::*;

verus! {

/// The value of an attribute. The store's values are a tagged union; the export
/// reads string values only, so every other kind is one variant.
#[derive(Debug, Clone)]
pub enum AttrValue {
    S(String),
    Other,
}

impl AttrValue {
    /// The characters of a string value; `None` for every other kind.
    pub open spec fn string_view(&self) -> Option<Seq<char>> {
        match self {
            AttrValue::S(s) => Some(s@),
            AttrValue::Other => None,
        }
    }
}

/// One named attribute of an item.
#[derive(Debug, Clone)]
pub struct Attribute {
    pub name: String,
    pub value: AttrValue,
}

/// An item: its attributes in the order they were recorded. A later attribute
/// shadows an earlier one of the same name, so the item behaves as a map from
/// attribute name to value. A list rather than a hash map keyed by `String`,
/// whose lookups Verus cannot relate to the keys' contents.
#[derive(Debug, Clone)]
pub struct Item {
    pub attributes: Vec<Attribute>,
}

/// An item seen as its attributes: each name with its string value, if any.
pub type ItemView = Seq<(Seq<char>, Option<Seq<char>>)>;

impl View for Item {
    type V = ItemView;

    open spec fn view(&self) -> ItemView {
        self.attributes@.map_values(|a: Attribute| (a.name@, a.value.string_view()))
    }
}

/// The value held under `name`: `None` where the item has no such attribute,
/// `Some(None)` where it holds a value that is not a string.
pub open spec fn lookup(attrs: ItemView, name: Seq<char>) -> Option<Option<Seq<char>>>
    decreases attrs.len(),
{
    if attrs.len() == 0 {
        None
    } else if attrs.last().0 == name {
        Some(attrs.last().1)
    } else {
        lookup(attrs.drop_last(), name)
    }
}

/// The string value held under `name`, if the item has one.
pub open spec fn string_value(item: ItemView, name: Seq<char>) -> Option<Seq<char>> {
    match lookup(item, name) {
        Some(Some(s)) => Some(s),
        _ => None,
    }
}

impl Item {
    /// An item without attributes.
    pub fn new() -> (r: Item)
        ensures
            forall|n: Seq<char>| lookup(#[trigger] r@, n) is None,
    {
        Item { attributes: Vec::new() }
    }

    /// Records `value` under `name`, replacing what the item held there.
    pub fn insert(&mut self, name: String, value: AttrValue)
        ensures
            lookup(final(self)@, name@) == Some(value.string_view()),
            forall|n: Seq<char>|
                n != name@ ==> lookup(#[trigger] final(self)@, n) == lookup(old(self)@, n),
    {
        let ghost nm = name@;
        let ghost v = value.string_view();
        self.attributes.push(Attribute { name, value });
        assert(self@.drop_last() =~= old(self)@);
        assert(self@.last() == (nm, v));
    }

    /// The string value held under `name`; `None` where the attribute is absent
    /// or holds a value of another kind.
    pub fn string_attribute(&self, name: &String) -> (r: Option<String>)
        ensures
            r matches Some(s) ==> string_value(self@, name@) == Some(s@),
            r is None ==> string_value(self@, name@) is None,
    {
        let mut i: usize = self.attributes.len();
        assert(self@.take(i as int) =~= self@);
        while i > 0
            invariant
                i <= self.attributes.len(),
                lookup(self@, name@) == lookup(self@.take(i as int), name@),
            decreases i,
        {
            let a = &self.attributes[i - 1];
            assert(self@.take(i as int).drop_last() =~= self@.take(i - 1));
            if a.name == *name {
                return match &a.value {
                    AttrValue::S(s) => Some(s.clone()),
                    AttrValue::Other => None,
                };
            }
            i = i - 1;
        }
        None
    }
}

} // verus!
