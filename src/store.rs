use vstd::prelude::*;

use crate::item::{Item, ItemModel};
use crate::text::is_blank;

verus! {

pub open spec fn models(v: Seq<Item>) -> Seq<ItemModel> {
    v.map_values(|x: Item| x@)
}

pub open spec fn contains_id(s: Seq<ItemModel>, id: u128) -> bool {
    exists|i: int| 0 <= i < s.len() && #[trigger] s[i].id == id
}

/// Where the item with this identifier stands; meaningful when there is one.
pub open spec fn index_of(s: Seq<ItemModel>, id: u128) -> int {
    choose|i: int| 0 <= i < s.len() && #[trigger] s[i].id == id
}

/// Every stored item has a name that is not blank, and no two share an identifier.
pub open spec fn valid_store(s: Seq<ItemModel>) -> bool {
    &&& forall|i: int| 0 <= i < s.len() ==> !is_blank(#[trigger] s[i].name)
    &&& forall|i: int, j: int|
        0 <= i < s.len() && 0 <= j < s.len() && #[trigger] s[i].id == #[trigger] s[j].id ==> i
            == j
}

pub proof fn lemma_index_of(s: Seq<ItemModel>, id: u128, i: int)
    requires
        valid_store(s),
        0 <= i < s.len(),
        s[i].id == id,
    ensures
        contains_id(s, id),
        index_of(s, id) == i,
{
    assert(contains_id(s, id));
}

/// The persisted items, in the order in which they were created.
pub struct ItemStore {
    items: Vec<Item>,
}

impl View for ItemStore {
    type V = Seq<ItemModel>;

    closed spec fn view(&self) -> Seq<ItemModel> {
        models(self.items@)
    }
}

impl ItemStore {
    pub open spec fn valid(&self) -> bool {
        valid_store(self@)
    }

    pub fn new() -> (r: ItemStore)
        ensures
            r@ == Seq::<ItemModel>::empty(),
            r.valid(),
    {
        let r = ItemStore { items: Vec::new() };
        assert(r@ =~= Seq::<ItemModel>::empty());
        r
    }

    pub fn len(&self) -> (r: usize)
        ensures
            r == self@.len(),
    {
        self.items.len()
    }

    pub fn position_of(&self, id: u128) -> (r: Option<usize>)
        requires
            self.valid(),
        ensures
            match r {
                Some(i) => i < self@.len() && self@[i as int].id == id && index_of(self@, id) == i,
                None => !contains_id(self@, id),
            },
    {
        let mut i: usize = 0;
        while i < self.items.len()
            invariant
                self.valid(),
                i <= self@.len(),
                self@.len() == self.items@.len(),
                forall|j: int| 0 <= j < i ==> self@[j].id != id,
            decreases self.items.len() - i,
        {
            if self.items[i].id == id {
                proof {
                    lemma_index_of(self@, id, i as int);
                }
                return Some(i);
            }
            i = i + 1;
        }
        None
    }

    pub fn item_at(&self, i: usize) -> (r: &Item)
        requires
            i < self@.len(),
        ensures
            r@ == self@[i as int],
    {
        &self.items[i]
    }

    /// A copy of every stored item, in store order.
    pub fn snapshot(&self) -> (r: Vec<Item>)
        ensures
            models(r@) == self@,
    {
        let mut r: Vec<Item> = Vec::new();
        let mut i: usize = 0;
        while i < self.items.len()
            invariant
                i <= self.items@.len(),
                models(r@) == models(self.items@).subrange(0, i as int),
            decreases self.items.len() - i,
        {
            let ghost before = r@;
            let x = self.items[i].duplicate();
            r.push(x);
            proof {
                assert(r@ == before.push(x));
                assert(models(before).len() == i);
                assert forall|k: int| 0 <= k <= i implies #[trigger] models(r@)[k] == models(
                    self.items@,
                )[k] by {
                    if k < i {
                        assert(models(before)[k] == models(self.items@).subrange(0, i as int)[k]);
                        assert(r@[k] == before[k]);
                    }
                }
            }
            i = i + 1;
            assert(models(r@) =~= models(self.items@).subrange(0, i as int));
        }
        assert(models(self.items@).subrange(0, i as int) =~= models(self.items@));
        r
    }

    pub(crate) fn insert(&mut self, item: Item)
        requires
            old(self).valid(),
            !contains_id(old(self)@, item.id),
            !is_blank(item.name@),
        ensures
            final(self)@ == old(self)@.push(item@),
            final(self).valid(),
    {
        self.items.push(item);
        assert(self@ =~= old(self)@.push(item@));
        assert forall|i: int, j: int|
            0 <= i < self@.len() && 0 <= j < self@.len() && #[trigger] self@[i].id
                == #[trigger] self@[j].id implies i == j by {
            if i < old(self)@.len() && j == old(self)@.len() {
                assert(old(self)@[i].id == item.id);
            }
            if j < old(self)@.len() && i == old(self)@.len() {
                assert(old(self)@[j].id == item.id);
            }
        }
    }

    pub(crate) fn replace(&mut self, i: usize, item: Item)
        requires
            old(self).valid(),
            i < old(self)@.len(),
            item.id == old(self)@[i as int].id,
            !is_blank(item.name@),
        ensures
            final(self)@ == old(self)@.update(i as int, item@),
            final(self).valid(),
    {
        self.items.set(i, item);
        assert(self@ =~= old(self)@.update(i as int, item@));
    }

    pub(crate) fn remove_at(&mut self, i: usize)
        requires
            old(self).valid(),
            i < old(self)@.len(),
        ensures
            final(self)@ == old(self)@.remove(i as int),
            final(self).valid(),
    {
        self.items.remove(i);
        assert(self@ =~= old(self)@.remove(i as int));
        let ghost s = old(self)@;
        assert forall|a: int, b: int|
            0 <= a < self@.len() && 0 <= b < self@.len() && #[trigger] self@[a].id
                == #[trigger] self@[b].id implies a == b by {
            let a0 = if a < i { a } else { a + 1 };
            let b0 = if b < i { b } else { b + 1 };
            assert(s[a0].id == s[b0].id);
        }
        assert forall|a: int| 0 <= a < self@.len() implies !is_blank(#[trigger] self@[a].name) by {
            let a0 = if a < i { a } else { a + 1 };
            assert(s[a0] == self@[a]);
        }
    }
}

} // verus!
