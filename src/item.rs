use vstd::prelude::*;

verus! {

/// What an item is, mathematically.
pub struct ItemModel {
    pub id: u128,
    pub name: Seq<char>,
    pub description: Option<Seq<char>>,
}

pub open spec fn opt_text(o: Option<String>) -> Option<Seq<char>> {
    match o {
        Some(s) => Some(s@),
        None => None,
    }
}

/// The managed resource: an opaque 128-bit identifier (a UUID), a name and an
/// optional description.
#[derive(Debug)]
pub struct Item {
    pub id: u128,
    pub name: String,
    pub description: Option<String>,
}

impl View for Item {
    type V = ItemModel;

    open spec fn view(&self) -> ItemModel {
        ItemModel { id: self.id, name: self.name@, description: opt_text(self.description) }
    }
}

pub fn copy_text(o: &Option<String>) -> (r: Option<String>)
    ensures
        opt_text(r) == opt_text(*o),
{
    match o {
        Some(s) => Some(s.clone()),
        None => None,
    }
}

impl Item {
    /// A copy of the item with the same fields.
    pub fn duplicate(&self) -> (r: Item)
        ensures
            r@ == self@,
    {
        Item { id: self.id, name: self.name.clone(), description: copy_text(&self.description) }
    }
}

} // verus!
