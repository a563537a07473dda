//! The system state — the four catalog tables and the movement ledger — and
//! every operation over it: the item-type resolver, the write path that
//! applies a stock delta and appends the ledger row as one all-or-nothing
//! step, the partial update and delete of ledger rows, and the read path that
//! denormalizes printer and item details.

use vstd::prelude::*;

use crate::catalog::{Brand, DeleteRequest, Drum, Printer, Toner};
use crate::error::{ApiError, ValidationCode};
use crate::ids::{fresh_uuid, is_uuid, spec_is_uuid};
use crate::clock::now_millis;
use crate::movement::{
    CreateMovementRequest, ItemDetails, Movement, MovementDetails, PrinterDetails,
    UpdateMovementRequest,
};

verus! {

/// The whole state: catalog rows plus the ledger. Each table keeps its rows
/// in insertion order and, when well-formed, holds at most one row per id.
pub struct Store {
    pub brands: Vec<Brand>,
    pub printers: Vec<Printer>,
    pub toners: Vec<Toner>,
    pub drums: Vec<Drum>,
    pub movements: Vec<Movement>,
}

/// An item id resolved to its catalog type. The id spaces are expected to be
/// disjoint; on a collision the resolver answers `Toner`.
#[derive(Clone, Debug, PartialEq, Eq)]
pub enum ItemRef {
    Toner(String),
    Drum(String),
}

impl Store {
    /// An empty store.
    pub fn new() -> (r: Store)
        ensures
            r.wf(),
            r.brands@ =~= Seq::<Brand>::empty(),
            r.printers@ =~= Seq::<Printer>::empty(),
            r.toners@ =~= Seq::<Toner>::empty(),
            r.drums@ =~= Seq::<Drum>::empty(),
            r.movements@ =~= Seq::<Movement>::empty(),
    {
        Store {
            brands: Vec::new(),
            printers: Vec::new(),
            toners: Vec::new(),
            drums: Vec::new(),
            movements: Vec::new(),
        }
    }

    /// Well-formedness: within each table, ids are unique.
    pub open spec fn wf(self) -> bool {
        &&& forall|i: int, j: int|
            0 <= i < j < self.brands@.len() ==> #[trigger] self.brands@[i].id@ != #[trigger] self.brands@[j].id@
        &&& forall|i: int, j: int|
            0 <= i < j < self.printers@.len() ==> #[trigger] self.printers@[i].id@
                != #[trigger] self.printers@[j].id@
        &&& forall|i: int, j: int|
            0 <= i < j < self.toners@.len() ==> #[trigger] self.toners@[i].id@ != #[trigger] self.toners@[j].id@
        &&& forall|i: int, j: int|
            0 <= i < j < self.drums@.len() ==> #[trigger] self.drums@[i].id@ != #[trigger] self.drums@[j].id@
        &&& forall|i: int, j: int|
            0 <= i < j < self.movements@.len() ==> #[trigger] self.movements@[i].id@
                != #[trigger] self.movements@[j].id@
    }

    /// Two states with the same rows everywhere.
    pub open spec fn same_state(a: Store, b: Store) -> bool {
        &&& a.brands@ == b.brands@
        &&& a.printers@ == b.printers@
        &&& a.toners@ == b.toners@
        &&& a.drums@ == b.drums@
        &&& a.movements@ == b.movements@
    }

    pub open spec fn has_brand(self, id: Seq<char>) -> bool {
        exists|i: int| 0 <= i < self.brands@.len() && #[trigger] self.brands@[i].id@ == id
    }

    pub open spec fn has_printer(self, id: Seq<char>) -> bool {
        exists|i: int| 0 <= i < self.printers@.len() && #[trigger] self.printers@[i].id@ == id
    }

    pub open spec fn has_toner(self, id: Seq<char>) -> bool {
        exists|i: int| 0 <= i < self.toners@.len() && #[trigger] self.toners@[i].id@ == id
    }

    pub open spec fn has_drum(self, id: Seq<char>) -> bool {
        exists|i: int| 0 <= i < self.drums@.len() && #[trigger] self.drums@[i].id@ == id
    }

    pub open spec fn has_movement(self, id: Seq<char>) -> bool {
        exists|i: int| 0 <= i < self.movements@.len() && #[trigger] self.movements@[i].id@ == id
    }

    /// Whether an item id resolves at all, to either catalog.
    pub open spec fn has_item(self, id: Seq<char>) -> bool {
        self.has_toner(id) || self.has_drum(id)
    }

    /// The index of the printer row with this id (meaningful under `wf` when
    /// `has_printer` holds).
    pub open spec fn printer_at(self, id: Seq<char>) -> int {
        choose|i: int| 0 <= i < self.printers@.len() && #[trigger] self.printers@[i].id@ == id
    }

    pub open spec fn toner_at(self, id: Seq<char>) -> int {
        choose|i: int| 0 <= i < self.toners@.len() && #[trigger] self.toners@[i].id@ == id
    }

    pub open spec fn drum_at(self, id: Seq<char>) -> int {
        choose|i: int| 0 <= i < self.drums@.len() && #[trigger] self.drums@[i].id@ == id
    }

    pub open spec fn movement_at(self, id: Seq<char>) -> int {
        choose|i: int| 0 <= i < self.movements@.len() && #[trigger] self.movements@[i].id@ == id
    }

    /// The stock column of the row an item id resolves to.
    pub open spec fn stock_of(self, id: Seq<char>) -> Option<i32> {
        if self.has_toner(id) {
            self.toners@[self.toner_at(id)].stock
        } else {
            self.drums@[self.drum_at(id)].stock
        }
    }

    pub proof fn lemma_toner_at_is(self, id: Seq<char>, i: int)
        requires
            self.wf(),
            0 <= i < self.toners@.len(),
            self.toners@[i].id@ == id,
        ensures
            self.has_toner(id),
            self.toner_at(id) == i,
    {
        assert(self.has_toner(id));
        let j = self.toner_at(id);
        assert(0 <= j < self.toners@.len() && self.toners@[j].id@ == id);
    }

    pub proof fn lemma_drum_at_is(self, id: Seq<char>, i: int)
        requires
            self.wf(),
            0 <= i < self.drums@.len(),
            self.drums@[i].id@ == id,
        ensures
            self.has_drum(id),
            self.drum_at(id) == i,
    {
        assert(self.has_drum(id));
        let j = self.drum_at(id);
        assert(0 <= j < self.drums@.len() && self.drums@[j].id@ == id);
    }

    pub proof fn lemma_printer_at_is(self, id: Seq<char>, i: int)
        requires
            self.wf(),
            0 <= i < self.printers@.len(),
            self.printers@[i].id@ == id,
        ensures
            self.has_printer(id),
            self.printer_at(id) == i,
    {
        assert(self.has_printer(id));
        let j = self.printer_at(id);
        assert(0 <= j < self.printers@.len() && self.printers@[j].id@ == id);
    }

    pub proof fn lemma_movement_at_is(self, id: Seq<char>, i: int)
        requires
            self.wf(),
            0 <= i < self.movements@.len(),
            self.movements@[i].id@ == id,
        ensures
            self.has_movement(id),
            self.movement_at(id) == i,
    {
        assert(self.has_movement(id));
        let j = self.movement_at(id);
        assert(0 <= j < self.movements@.len() && self.movements@[j].id@ == id);
    }

    fn find_brand(&self, id: &String) -> (r: Option<usize>)
        ensures
            r matches Some(i) ==> i < self.brands@.len() && self.brands@[i as int].id@ == id@,
            r is Some <==> self.has_brand(id@),
    {
        let n = self.brands.len();
        let mut i: usize = 0;
        while i < n
            invariant
                n == self.brands@.len(),
                i <= n,
                forall|j: int| 0 <= j < i ==> #[trigger] self.brands@[j].id@ != id@,
            decreases n - i,
        {
            if self.brands[i].id == *id {
                return Some(i);
            }
            i = i + 1;
        }
        None
    }

    fn find_printer(&self, id: &String) -> (r: Option<usize>)
        ensures
            r matches Some(i) ==> i < self.printers@.len() && self.printers@[i as int].id@ == id@,
            r is Some <==> self.has_printer(id@),
    {
        let n = self.printers.len();
        let mut i: usize = 0;
        while i < n
            invariant
                n == self.printers@.len(),
                i <= n,
                forall|j: int| 0 <= j < i ==> #[trigger] self.printers@[j].id@ != id@,
            decreases n - i,
        {
            if self.printers[i].id == *id {
                return Some(i);
            }
            i = i + 1;
        }
        None
    }

    fn find_toner(&self, id: &String) -> (r: Option<usize>)
        ensures
            r matches Some(i) ==> i < self.toners@.len() && self.toners@[i as int].id@ == id@,
            r is Some <==> self.has_toner(id@),
    {
        let n = self.toners.len();
        let mut i: usize = 0;
        while i < n
            invariant
                n == self.toners@.len(),
                i <= n,
                forall|j: int| 0 <= j < i ==> #[trigger] self.toners@[j].id@ != id@,
            decreases n - i,
        {
            if self.toners[i].id == *id {
                return Some(i);
            }
            i = i + 1;
        }
        None
    }

    fn find_drum(&self, id: &String) -> (r: Option<usize>)
        ensures
            r matches Some(i) ==> i < self.drums@.len() && self.drums@[i as int].id@ == id@,
            r is Some <==> self.has_drum(id@),
    {
        let n = self.drums.len();
        let mut i: usize = 0;
        while i < n
            invariant
                n == self.drums@.len(),
                i <= n,
                forall|j: int| 0 <= j < i ==> #[trigger] self.drums@[j].id@ != id@,
            decreases n - i,
        {
            if self.drums[i].id == *id {
                return Some(i);
            }
            i = i + 1;
        }
        None
    }

    fn find_movement(&self, id: &String) -> (r: Option<usize>)
        ensures
            r matches Some(i) ==> i < self.movements@.len() && self.movements@[i as int].id@
                == id@,
            r is Some <==> self.has_movement(id@),
    {
        let n = self.movements.len();
        let mut i: usize = 0;
        while i < n
            invariant
                n == self.movements@.len(),
                i <= n,
                forall|j: int| 0 <= j < i ==> #[trigger] self.movements@[j].id@ != id@,
            decreases n - i,
        {
            if self.movements[i].id == *id {
                return Some(i);
            }
            i = i + 1;
        }
        None
    }

    /// The item-type resolver: which catalog an item id names, if any.
    /// No side effects; the toner catalog wins an id collision.
    pub fn resolve(&self, item_id: &String) -> (r: Option<ItemRef>)
        ensures
            self.has_toner(item_id@) ==> (r matches Some(ItemRef::Toner(s)) && s@ == item_id@),
            !self.has_toner(item_id@) && self.has_drum(item_id@) ==> (r matches Some(
                ItemRef::Drum(s),
            ) && s@ == item_id@),
            r is Some <==> self.has_item(item_id@),
    {
        if self.find_toner(item_id).is_some() {
            Some(ItemRef::Toner(item_id.clone()))
        } else if self.find_drum(item_id).is_some() {
            Some(ItemRef::Drum(item_id.clone()))
        } else {
            None
        }
    }

    /// Whether a toner row with this id exists; `IdNotFound` otherwise.
    pub fn toner_exists(&self, id: &String) -> (r: Result<(), ApiError>)
        ensures
            r is Ok <==> self.has_toner(id@),
            r is Err ==> r == Err::<(), ApiError>(ApiError::IdNotFound),
    {
        if self.find_toner(id).is_some() {
            Ok(())
        } else {
            Err(ApiError::IdNotFound)
        }
    }

    /// Whether a drum row with this id exists; `IdNotFound` otherwise.
    pub fn drum_exists(&self, id: &String) -> (r: Result<(), ApiError>)
        ensures
            r is Ok <==> self.has_drum(id@),
            r is Err ==> r == Err::<(), ApiError>(ApiError::IdNotFound),
    {
        if self.find_drum(id).is_some() {
            Ok(())
        } else {
            Err(ApiError::IdNotFound)
        }
    }

    /// Whether a brand row with this id exists; `IdNotFound` otherwise.
    pub fn brand_exists(&self, id: &String) -> (r: Result<(), ApiError>)
        ensures
            r is Ok <==> self.has_brand(id@),
            r is Err ==> r == Err::<(), ApiError>(ApiError::IdNotFound),
    {
        if self.find_brand(id).is_some() {
            Ok(())
        } else {
            Err(ApiError::IdNotFound)
        }
    }

    /// Whether a printer row with this id exists; `IdNotFound` otherwise.
    pub fn printer_exists(&self, id: &String) -> (r: Result<(), ApiError>)
        ensures
            r is Ok <==> self.has_printer(id@),
            r is Err ==> r == Err::<(), ApiError>(ApiError::IdNotFound),
    {
        if self.find_printer(id).is_some() {
            Ok(())
        } else {
            Err(ApiError::IdNotFound)
        }
    }

    pub open spec fn has_toner_named(self, name: Seq<char>) -> bool {
        exists|i: int| 0 <= i < self.toners@.len() && #[trigger] self.toners@[i].name@ == name
    }

    pub open spec fn has_drum_named(self, name: Seq<char>) -> bool {
        exists|i: int| 0 <= i < self.drums@.len() && #[trigger] self.drums@[i].name@ == name
    }

    pub open spec fn has_brand_named(self, name: Seq<char>) -> bool {
        exists|i: int| 0 <= i < self.brands@.len() && #[trigger] self.brands@[i].name@ == name
    }

    pub open spec fn has_printer_named(self, name: Seq<char>) -> bool {
        exists|i: int| 0 <= i < self.printers@.len() && #[trigger] self.printers@[i].name@ == name
    }

    /// Whether no toner row carries this name yet; `AlreadyExists` otherwise.
    pub fn is_toner_unique(&self, name: &String) -> (r: Result<(), ApiError>)
        ensures
            r is Ok <==> !self.has_toner_named(name@),
            r is Err ==> r == Err::<(), ApiError>(ApiError::AlreadyExists),
    {
        let n = self.toners.len();
        let mut i: usize = 0;
        while i < n
            invariant
                n == self.toners@.len(),
                i <= n,
                forall|j: int| 0 <= j < i ==> #[trigger] self.toners@[j].name@ != name@,
            decreases n - i,
        {
            if self.toners[i].name == *name {
                return Err(ApiError::AlreadyExists);
            }
            i = i + 1;
        }
        Ok(())
    }

    /// Whether no drum row carries this name yet; `AlreadyExists` otherwise.
    pub fn is_drum_unique(&self, name: &String) -> (r: Result<(), ApiError>)
        ensures
            r is Ok <==> !self.has_drum_named(name@),
            r is Err ==> r == Err::<(), ApiError>(ApiError::AlreadyExists),
    {
        let n = self.drums.len();
        let mut i: usize = 0;
        while i < n
            invariant
                n == self.drums@.len(),
                i <= n,
                forall|j: int| 0 <= j < i ==> #[trigger] self.drums@[j].name@ != name@,
            decreases n - i,
        {
            if self.drums[i].name == *name {
                return Err(ApiError::AlreadyExists);
            }
            i = i + 1;
        }
        Ok(())
    }

    /// Whether no brand row carries this name yet; `AlreadyExists` otherwise.
    pub fn is_brand_unique(&self, name: &String) -> (r: Result<(), ApiError>)
        ensures
            r is Ok <==> !self.has_brand_named(name@),
            r is Err ==> r == Err::<(), ApiError>(ApiError::AlreadyExists),
    {
        let n = self.brands.len();
        let mut i: usize = 0;
        while i < n
            invariant
                n == self.brands@.len(),
                i <= n,
                forall|j: int| 0 <= j < i ==> #[trigger] self.brands@[j].name@ != name@,
            decreases n - i,
        {
            if self.brands[i].name == *name {
                return Err(ApiError::AlreadyExists);
            }
            i = i + 1;
        }
        Ok(())
    }

    /// Whether no printer row carries this name yet; `AlreadyExists` otherwise.
    pub fn is_printer_unique(&self, name: &String) -> (r: Result<(), ApiError>)
        ensures
            r is Ok <==> !self.has_printer_named(name@),
            r is Err ==> r == Err::<(), ApiError>(ApiError::AlreadyExists),
    {
        let n = self.printers.len();
        let mut i: usize = 0;
        while i < n
            invariant
                n == self.printers@.len(),
                i <= n,
                forall|j: int| 0 <= j < i ==> #[trigger] self.printers@[j].name@ != name@,
            decreases n - i,
        {
            if self.printers[i].name == *name {
                return Err(ApiError::AlreadyExists);
            }
            i = i + 1;
        }
        Ok(())
    }

    /// Insert a brand row; the id must not be taken yet.
    pub fn add_brand(&mut self, b: Brand) -> (r: Result<(), ApiError>)
        requires
            old(self).wf(),
        ensures
            final(self).wf(),
            old(self).has_brand(b.id@) ==> r == Err::<(), ApiError>(ApiError::AlreadyExists)
                && Self::same_state(*old(self), *final(self)),
            !old(self).has_brand(b.id@) ==> ({
                let pre = *old(self);
                let post = *final(self);
                r is Ok && post.brands@ == pre.brands@.push(b) && post.printers@ == pre.printers@ && post.toners@ == pre.toners@ && post.drums@ == pre.drums@ && post.movements@ == pre.movements@
            }),
    {
        if self.find_brand(&b.id).is_some() {
            return Err(ApiError::AlreadyExists);
        }
        proof {
            let s = self.brands@.push(b);
            assert forall|i: int, j: int| 0 <= i < j < s.len() implies s[i].id@ != s[j].id@ by {
                if j < s.len() - 1 {
                    assert(s[i] == self.brands@[i] && s[j] == self.brands@[j]);
                } else {
                    assert(s[i] == self.brands@[i] && s[j] == b);
                }
            }
        }
        self.brands.push(b);
        Ok(())
    }

    /// Insert a printer row; the id must not be taken yet.
    pub fn add_printer(&mut self, p: Printer) -> (r: Result<(), ApiError>)
        requires
            old(self).wf(),
        ensures
            final(self).wf(),
            old(self).has_printer(p.id@) ==> r == Err::<(), ApiError>(ApiError::AlreadyExists)
                && Self::same_state(*old(self), *final(self)),
            !old(self).has_printer(p.id@) ==> ({
                let pre = *old(self);
                let post = *final(self);
                r is Ok && post.printers@ == pre.printers@.push(p) && post.brands@ == pre.brands@ && post.toners@ == pre.toners@ && post.drums@ == pre.drums@ && post.movements@ == pre.movements@
            }),
    {
        if self.find_printer(&p.id).is_some() {
            return Err(ApiError::AlreadyExists);
        }
        proof {
            let s = self.printers@.push(p);
            assert forall|i: int, j: int| 0 <= i < j < s.len() implies s[i].id@ != s[j].id@ by {
                if j < s.len() - 1 {
                    assert(s[i] == self.printers@[i] && s[j] == self.printers@[j]);
                } else {
                    assert(s[i] == self.printers@[i] && s[j] == p);
                }
            }
        }
        self.printers.push(p);
        Ok(())
    }

    /// Insert a toner row; the id must not be taken yet.
    pub fn add_toner(&mut self, t: Toner) -> (r: Result<(), ApiError>)
        requires
            old(self).wf(),
        ensures
            final(self).wf(),
            old(self).has_toner(t.id@) ==> r == Err::<(), ApiError>(ApiError::AlreadyExists)
                && Self::same_state(*old(self), *final(self)),
            !old(self).has_toner(t.id@) ==> ({
                let pre = *old(self);
                let post = *final(self);
                r is Ok && post.toners@ == pre.toners@.push(t) && post.brands@ == pre.brands@ && post.printers@ == pre.printers@ && post.drums@ == pre.drums@ && post.movements@ == pre.movements@
            }),
    {
        if self.find_toner(&t.id).is_some() {
            return Err(ApiError::AlreadyExists);
        }
        proof {
            let s = self.toners@.push(t);
            assert forall|i: int, j: int| 0 <= i < j < s.len() implies s[i].id@ != s[j].id@ by {
                if j < s.len() - 1 {
                    assert(s[i] == self.toners@[i] && s[j] == self.toners@[j]);
                } else {
                    assert(s[i] == self.toners@[i] && s[j] == t);
                }
            }
        }
        self.toners.push(t);
        Ok(())
    }

    /// Insert a drum row; the id must not be taken yet.
    pub fn add_drum(&mut self, d: Drum) -> (r: Result<(), ApiError>)
        requires
            old(self).wf(),
        ensures
            final(self).wf(),
            old(self).has_drum(d.id@) ==> r == Err::<(), ApiError>(ApiError::AlreadyExists)
                && Self::same_state(*old(self), *final(self)),
            !old(self).has_drum(d.id@) ==> ({
                let pre = *old(self);
                let post = *final(self);
                r is Ok && post.drums@ == pre.drums@.push(d) && post.brands@ == pre.brands@ && post.printers@ == pre.printers@ && post.toners@ == pre.toners@ && post.movements@ == pre.movements@
            }),
    {
        if self.find_drum(&d.id).is_some() {
            return Err(ApiError::AlreadyExists);
        }
        proof {
            let s = self.drums@.push(d);
            assert forall|i: int, j: int| 0 <= i < j < s.len() implies s[i].id@ != s[j].id@ by {
                if j < s.len() - 1 {
                    assert(s[i] == self.drums@[i] && s[j] == self.drums@[j]);
                } else {
                    assert(s[i] == self.drums@[i] && s[j] == d);
                }
            }
        }
        self.drums.push(d);
        Ok(())
    }

    /// Whether a ledger row with this id exists; `IdNotFound` otherwise.
    pub fn movement_exists(&self, id: &String) -> (r: Result<(), ApiError>)
        ensures
            r is Ok <==> self.has_movement(id@),
            r is Err ==> r == Err::<(), ApiError>(ApiError::IdNotFound),
    {
        if self.find_movement(id).is_some() {
            Ok(())
        } else {
            Err(ApiError::IdNotFound)
        }
    }
}

// The write path of the ledger.
impl Store {
    /// How a stock column responds to a delta: as in SQL, an absent count
    /// stays absent, a present count grows by `q`.
    pub open spec fn stock_bump_ok(pre: Option<i32>, post: Option<i32>, q: i32) -> bool {
        match (pre, post) {
            (Some(s0), Some(s1)) => s1 == s0 + q,
            (None, None) => true,
            _ => false,
        }
    }

    /// Whether adding `q` to this stock column leaves the machine range.
    pub open spec fn stock_add_overflows(st: Option<i32>, q: i32) -> bool {
        match st {
            Some(s) => s + q > i32::MAX || s + q < i32::MIN,
            None => false,
        }
    }

    /// The toner table after the delta: the row under `id` bumped by `q`,
    /// every other row untouched.
    pub open spec fn toner_bumped(pre: Store, post: Store, id: Seq<char>, q: i32) -> bool {
        &&& post.toners@.len() == pre.toners@.len()
        &&& forall|i: int|
            0 <= i < pre.toners@.len() && #[trigger] pre.toners@[i].id@ != id
                ==> post.toners@[i] == pre.toners@[i]
        &&& forall|i: int|
            0 <= i < pre.toners@.len() && #[trigger] pre.toners@[i].id@ == id ==> {
                let t0 = pre.toners@[i];
                let t1 = post.toners@[i];
                &&& t1.id == t0.id
                &&& t1.name == t0.name
                &&& t1.price == t0.price
                &&& Self::stock_bump_ok(t0.stock, t1.stock, q)
            }
    }

    /// The drum table after the delta, in the same shape.
    pub open spec fn drum_bumped(pre: Store, post: Store, id: Seq<char>, q: i32) -> bool {
        &&& post.drums@.len() == pre.drums@.len()
        &&& forall|i: int|
            0 <= i < pre.drums@.len() && #[trigger] pre.drums@[i].id@ != id ==> post.drums@[i]
                == pre.drums@[i]
        &&& forall|i: int|
            0 <= i < pre.drums@.len() && #[trigger] pre.drums@[i].id@ == id ==> {
                let d0 = pre.drums@[i];
                let d1 = post.drums@[i];
                &&& d1.id == d0.id
                &&& d1.name == d0.name
                &&& d1.price == d0.price
                &&& Self::stock_bump_ok(d0.stock, d1.stock, q)
            }
    }

    /// The ledger after the append: the old rows, then exactly one new row
    /// carrying the request's fields, the fresh id and the timestamp.
    pub open spec fn ledger_appended(
        pre: Store,
        post: Store,
        req: CreateMovementRequest,
        id: Seq<char>,
        created_at: i64,
    ) -> bool {
        &&& post.movements@.len() == pre.movements@.len() + 1
        &&& post.movements@.drop_last() == pre.movements@
        &&& {
            let m = post.movements@.last();
            &&& m.id@ == id
            &&& m.printer_id@ == req.printer_id@
            &&& m.item_id@ == req.item_id@
            &&& m.quantity == req.quantity
            &&& m.created_at == created_at
        }
    }

    /// The whole effect of a successful create: stock delta and ledger append
    /// together, nothing else touched. The delta lands on the toner row when
    /// the item resolves as a toner, else on the drum row.
    pub open spec fn movement_created(
        pre: Store,
        post: Store,
        req: CreateMovementRequest,
        id: Seq<char>,
        created_at: i64,
    ) -> bool {
        &&& Self::ledger_appended(pre, post, req, id, created_at)
        &&& pre.has_toner(req.item_id@) ==> Self::toner_bumped(pre, post, req.item_id@, req.quantity)
            && post.drums@ == pre.drums@
        &&& !pre.has_toner(req.item_id@) ==> Self::drum_bumped(pre, post, req.item_id@, req.quantity)
            && post.toners@ == pre.toners@
        &&& post.brands@ == pre.brands@
        &&& post.printers@ == pre.printers@
    }

    /// The write path, given the generated id and timestamp: resolve the
    /// item, validate, then apply the stock delta and append the ledger row
    /// as one all-or-nothing step. Every failure leaves the state untouched;
    /// `DatabaseError` stands for what the store would refuse (a taken
    /// primary key, a stock count leaving the machine range).
    pub fn create_movement_with(
        &mut self,
        req: &CreateMovementRequest,
        movement_id: &String,
        created_at: i64,
    ) -> (r: Result<String, ApiError>)
        requires
            old(self).wf(),
        ensures
            final(self).wf(),
            ({
                let pre = *old(self);
                let post = *final(self);
                let q = req.quantity;
                let ok_ids = req.ids_well_formed();
                let found = pre.has_item(req.item_id@);
                let fresh = !pre.has_movement(movement_id@);
                let fits = !Self::stock_add_overflows(pre.stock_of(req.item_id@), q);
                &&& !ok_ids ==> r == Err::<String, ApiError>(
                    ApiError::ValidationError(ValidationCode::InvalidUuid),
                ) && Self::same_state(pre, post)
                &&& ok_ids && !found ==> r == Err::<String, ApiError>(ApiError::IdNotFound)
                    && Self::same_state(pre, post)
                &&& ok_ids && found && q <= 0 ==> r == Err::<String, ApiError>(
                    ApiError::ValidationError(ValidationCode::InvalidQuantity),
                ) && Self::same_state(pre, post)
                &&& ok_ids && found && q > 0 && !fresh ==> r == Err::<String, ApiError>(
                    ApiError::DatabaseError,
                ) && Self::same_state(pre, post)
                &&& ok_ids && found && q > 0 && fresh && !fits ==> r == Err::<String, ApiError>(
                    ApiError::DatabaseError,
                ) && Self::same_state(pre, post)
                &&& ok_ids && found && q > 0 && fresh && fits ==> (r matches Ok(out) && out@
                    == movement_id@ && Self::movement_created(
                    pre,
                    post,
                    *req,
                    movement_id@,
                    created_at,
                ))
            }),
    {
        if let Err(e) = req.validate() {
            return Err(e);
        }
        let toner_idx = self.find_toner(&req.item_id);
        let drum_idx = self.find_drum(&req.item_id);
        if toner_idx.is_none() && drum_idx.is_none() {
            return Err(ApiError::IdNotFound);
        }
        if req.quantity <= 0 {
            return Err(ApiError::ValidationError(ValidationCode::InvalidQuantity));
        }
        if self.find_movement(movement_id).is_some() {
            return Err(ApiError::DatabaseError);
        }
        // The stock delta, on whichever table the item resolved to.
        if let Some(i) = toner_idx {
            proof {
                self.lemma_toner_at_is(req.item_id@, i as int);
            }
            match self.toners[i].stock {
                Some(s) => {
                    match s.checked_add(req.quantity) {
                        Some(ns) => {
                            self.toners[i].stock = Some(ns);
                        },
                        None => {
                            return Err(ApiError::DatabaseError);
                        },
                    }
                },
                None => {},
            }
            proof {
                let pre = *old(self);
                let post = *self;
                assert forall|k: int|
                    0 <= k < pre.toners@.len() && #[trigger] pre.toners@[k].id@
                        == req.item_id@ implies k == i as int by {
                    if k != i as int {
                        assert(pre.toners@[k].id@ != pre.toners@[i as int].id@);
                    }
                }
                assert(Self::toner_bumped(pre, post, req.item_id@, req.quantity));
            }
        } else {
            let i = drum_idx.unwrap();
            proof {
                self.lemma_drum_at_is(req.item_id@, i as int);
            }
            match self.drums[i].stock {
                Some(s) => {
                    match s.checked_add(req.quantity) {
                        Some(ns) => {
                            self.drums[i].stock = Some(ns);
                        },
                        None => {
                            return Err(ApiError::DatabaseError);
                        },
                    }
                },
                None => {},
            }
            proof {
                let pre = *old(self);
                let post = *self;
                assert forall|k: int|
                    0 <= k < pre.drums@.len() && #[trigger] pre.drums@[k].id@
                        == req.item_id@ implies k == i as int by {
                    if k != i as int {
                        assert(pre.drums@[k].id@ != pre.drums@[i as int].id@);
                    }
                }
                assert(Self::drum_bumped(pre, post, req.item_id@, req.quantity));
            }
        }
        // The ledger append; committed together with the delta above.
        let m = Movement {
            id: movement_id.clone(),
            printer_id: req.printer_id.clone(),
            item_id: req.item_id.clone(),
            quantity: req.quantity,
            created_at,
        };
        proof {
            let s = self.movements@.push(m);
            assert forall|i: int, j: int| 0 <= i < j < s.len() implies s[i].id@ != s[j].id@ by {
                if j < s.len() - 1 {
                    assert(s[i] == self.movements@[i] && s[j] == self.movements@[j]);
                } else {
                    assert(s[i] == self.movements@[i] && s[j] == m);
                }
            }
        }
        self.movements.push(m);
        proof {
            let pre = *old(self);
            let post = *self;
            assert(post.movements@.drop_last() =~= pre.movements@);
            assert(Self::ledger_appended(pre, post, *req, movement_id@, created_at));
        }
        Ok(movement_id.clone())
    }

    /// `POST /movements`: the write path under a freshly generated id and the
    /// current time. The three rejections are exactly those of
    /// [`Store::create_movement_with`]; when the input is valid, either the
    /// full effect took place under the returned id, or the store refused the
    /// write (`DatabaseError`) and nothing changed.
    pub fn create_movement(&mut self, req: &CreateMovementRequest) -> (r: Result<
        String,
        ApiError,
    >)
        requires
            old(self).wf(),
        ensures
            final(self).wf(),
            ({
                let pre = *old(self);
                let post = *final(self);
                let q = req.quantity;
                let ok_ids = req.ids_well_formed();
                let found = pre.has_item(req.item_id@);
                &&& !ok_ids ==> r == Err::<String, ApiError>(
                    ApiError::ValidationError(ValidationCode::InvalidUuid),
                ) && Self::same_state(pre, post)
                &&& ok_ids && !found ==> r == Err::<String, ApiError>(ApiError::IdNotFound)
                    && Self::same_state(pre, post)
                &&& ok_ids && found && q <= 0 ==> r == Err::<String, ApiError>(
                    ApiError::ValidationError(ValidationCode::InvalidQuantity),
                ) && Self::same_state(pre, post)
                &&& ok_ids && found && q > 0 ==> (match r {
                    Ok(out) => spec_is_uuid(out@) && (exists|ca: i64|
                        #[trigger] Self::movement_created(pre, post, *req, out@, ca)),
                    Err(e) => e == ApiError::DatabaseError && Self::same_state(pre, post),
                })
            }),
    {
        let movement_id = fresh_uuid();
        let created_at = now_millis();
        let r = self.create_movement_with(req, &movement_id, created_at);
        proof {
            if r is Ok {
                assert(Self::movement_created(
                    *old(self),
                    *self,
                    *req,
                    r->Ok_0@,
                    created_at,
                ));
            }
        }
        r
    }
}

// Partial update and deletion of ledger rows.
impl Store {
    /// The printer reference after a partial update.
    pub open spec fn new_printer_view(req: UpdateMovementRequest, m0: Movement) -> Seq<char> {
        match req.printer_id {
            Some(p) => p@,
            None => m0.printer_id@,
        }
    }

    /// The item reference after a partial update: a supplied item id is
    /// applied only when it resolves against one of the two catalogs.
    pub open spec fn new_item_view(pre: Store, req: UpdateMovementRequest, m0: Movement) -> Seq<
        char,
    > {
        match req.item_id {
            Some(it) => if pre.has_item(it@) {
                it@
            } else {
                m0.item_id@
            },
            None => m0.item_id@,
        }
    }

    /// The quantity after a partial update.
    pub open spec fn new_quantity(req: UpdateMovementRequest, m0: Movement) -> i32 {
        match req.quantity {
            Some(q) => q,
            None => m0.quantity,
        }
    }

    /// Whether the update would change anything at all. When it would not —
    /// no field supplied, every supplied field equal to the current value, an
    /// unresolvable item reference — the operation reports `NotModified`.
    pub open spec fn effective_change(pre: Store, req: UpdateMovementRequest, m0: Movement) -> bool {
        ||| Self::new_printer_view(req, m0) != m0.printer_id@
        ||| Self::new_item_view(pre, req, m0) != m0.item_id@
        ||| Self::new_quantity(req, m0) != m0.quantity
    }

    /// The whole effect of a successful update: the targeted row rewritten in
    /// place, every other row and every other table — the stock counters in
    /// particular — untouched.
    pub open spec fn movement_updated(pre: Store, post: Store, req: UpdateMovementRequest) -> bool {
        let idx = pre.movement_at(req.id@);
        let m0 = pre.movements@[idx];
        let m1 = post.movements@[idx];
        &&& post.movements@.len() == pre.movements@.len()
        &&& forall|j: int|
            0 <= j < pre.movements@.len() && j != idx ==> #[trigger] post.movements@[j]
                == pre.movements@[j]
        &&& m1.id@ == m0.id@
        &&& m1.created_at == m0.created_at
        &&& m1.printer_id@ == Self::new_printer_view(req, m0)
        &&& m1.item_id@ == Self::new_item_view(pre, req, m0)
        &&& m1.quantity == Self::new_quantity(req, m0)
        &&& post.brands@ == pre.brands@
        &&& post.printers@ == pre.printers@
        &&& post.toners@ == pre.toners@
        &&& post.drums@ == pre.drums@
    }

    /// `PUT /movements`: partial update of one ledger row. Absent fields are
    /// left unchanged; an update that changes nothing reports `NotModified`.
    /// Updating the quantity does not retouch the item's stock counter: the
    /// ledger row alone is rewritten.
    pub fn update_movement(&mut self, req: &UpdateMovementRequest) -> (r: Result<String, ApiError>)
        requires
            old(self).wf(),
        ensures
            final(self).wf(),
            ({
                let pre = *old(self);
                let post = *final(self);
                let ok_ids = req.ids_well_formed();
                let found = pre.has_movement(req.id@);
                let change = found && Self::effective_change(
                    pre,
                    *req,
                    pre.movements@[pre.movement_at(req.id@)],
                );
                &&& !ok_ids ==> r == Err::<String, ApiError>(
                    ApiError::ValidationError(ValidationCode::InvalidUuid),
                ) && Self::same_state(pre, post)
                &&& ok_ids && !found ==> r == Err::<String, ApiError>(ApiError::IdNotFound)
                    && Self::same_state(pre, post)
                &&& ok_ids && found && !change ==> r == Err::<String, ApiError>(
                    ApiError::NotModified,
                ) && Self::same_state(pre, post)
                &&& ok_ids && change ==> (r matches Ok(out) && out@ == req.id@
                    && Self::movement_updated(pre, post, *req))
            }),
    {
        if let Err(e) = req.validate() {
            return Err(e);
        }
        let i = match self.find_movement(&req.id) {
            Some(i) => i,
            None => {
                return Err(ApiError::IdNotFound);
            },
        };
        proof {
            self.lemma_movement_at_is(req.id@, i as int);
        }
        let mut changed = false;
        if let Some(p) = &req.printer_id {
            if !(self.movements[i].printer_id == *p) {
                self.movements[i].printer_id = p.clone();
                changed = true;
            }
        }
        if let Some(it) = &req.item_id {
            let resolves = self.find_toner(it).is_some() || self.find_drum(it).is_some();
            if resolves {
                if !(self.movements[i].item_id == *it) {
                    self.movements[i].item_id = it.clone();
                    changed = true;
                }
            }
        }
        if let Some(q) = req.quantity {
            if self.movements[i].quantity != q {
                self.movements[i].quantity = q;
                changed = true;
            }
        }
        if !changed {
            return Err(ApiError::NotModified);
        }
        proof {
            let pre = *old(self);
            let post = *self;
            assert forall|k: int, l: int|
                0 <= k < l < post.movements@.len() implies post.movements@[k].id@
                != post.movements@[l].id@ by {
                assert(post.movements@[k].id@ == pre.movements@[k].id@);
                assert(post.movements@[l].id@ == pre.movements@[l].id@);
            }
        }
        Ok(req.id.clone())
    }

    /// The ledger after the removal: the targeted row gone, everything else
    /// — the stock counters in particular — untouched.
    pub open spec fn movement_removed(pre: Store, post: Store, id: Seq<char>) -> bool {
        &&& post.movements@ == pre.movements@.remove(pre.movement_at(id))
        &&& post.brands@ == pre.brands@
        &&& post.printers@ == pre.printers@
        &&& post.toners@ == pre.toners@
        &&& post.drums@ == pre.drums@
    }

    /// `DELETE /movements`: remove one ledger row. The stock delta the row
    /// once applied is not reversed: the ledger row alone disappears.
    pub fn delete_movement(&mut self, req: &DeleteRequest) -> (r: Result<(), ApiError>)
        requires
            old(self).wf(),
        ensures
            final(self).wf(),
            ({
                let pre = *old(self);
                let post = *final(self);
                let found = pre.has_movement(req.id@);
                &&& !spec_is_uuid(req.id@) ==> r == Err::<(), ApiError>(
                    ApiError::ValidationError(ValidationCode::InvalidUuid),
                ) && Self::same_state(pre, post)
                &&& spec_is_uuid(req.id@) && !found ==> r == Err::<(), ApiError>(
                    ApiError::IdNotFound,
                ) && Self::same_state(pre, post)
                &&& spec_is_uuid(req.id@) && found ==> r is Ok && Self::movement_removed(
                    pre,
                    post,
                    req.id@,
                )
            }),
    {
        if !is_uuid(req.id.as_str()) {
            return Err(ApiError::ValidationError(ValidationCode::InvalidUuid));
        }
        let i = match self.find_movement(&req.id) {
            Some(i) => i,
            None => {
                return Err(ApiError::IdNotFound);
            },
        };
        proof {
            self.lemma_movement_at_is(req.id@, i as int);
        }
        self.movements.remove(i);
        proof {
            let pre = *old(self);
            let post = *self;
            assert forall|k: int, l: int|
                0 <= k < l < post.movements@.len() implies post.movements@[k].id@
                != post.movements@[l].id@ by {
                let k0 = if k < i as int {
                    k
                } else {
                    k + 1
                };
                let l0 = if l < i as int {
                    l
                } else {
                    l + 1
                };
                assert(post.movements@[k] == pre.movements@[k0]);
                assert(post.movements@[l] == pre.movements@[l0]);
            }
        }
        Ok(())
    }
}

// The read path: count, fetch by id, list. Reads join each ledger row with
// its printer and with whichever item table its item id matches; a row whose
// printer is gone drops out of the join, a joined row whose item resolves to
// neither table makes the whole read fail, as decoding a null item would.
impl Store {
    /// `GET /movements/count`.
    pub fn count_movements(&self) -> (r: usize)
        ensures
            r == self.movements@.len(),
    {
        self.movements.len()
    }

    /// The denormalized shape of one ledger row (meaningful under `wf` when
    /// the printer exists and the item resolves).
    pub open spec fn details_of(self, m: Movement) -> MovementDetails {
        let p = self.printers@[self.printer_at(m.printer_id@)];
        let item = if self.has_toner(m.item_id@) {
            let t = self.toners@[self.toner_at(m.item_id@)];
            ItemDetails { id: t.id, name: t.name }
        } else {
            let d = self.drums@[self.drum_at(m.item_id@)];
            ItemDetails { id: d.id, name: d.name }
        };
        MovementDetails {
            id: m.id,
            printer: PrinterDetails { id: p.id, name: p.name, model: p.model },
            item,
            quantity: m.quantity,
            created_at: m.created_at,
        }
    }

    /// `GET /movements/{id}`: one ledger row, joined with its printer and its
    /// resolved item.
    pub fn search_movement(&self, id: &String) -> (r: Result<MovementDetails, ApiError>)
        requires
            self.wf(),
        ensures
            ({
                let valid = spec_is_uuid(id@);
                let found = self.has_movement(id@);
                let m = self.movements@[self.movement_at(id@)];
                &&& !valid ==> r == Err::<MovementDetails, ApiError>(
                    ApiError::ValidationError(ValidationCode::InvalidUuid),
                )
                &&& valid && !found ==> r == Err::<MovementDetails, ApiError>(ApiError::IdNotFound)
                &&& valid && found && !self.has_printer(m.printer_id@) ==> r == Err::<
                    MovementDetails,
                    ApiError,
                >(ApiError::IdNotFound)
                &&& valid && found && self.has_printer(m.printer_id@) && !self.has_item(m.item_id@)
                    ==> r == Err::<MovementDetails, ApiError>(ApiError::DatabaseError)
                &&& valid && found && self.has_printer(m.printer_id@) && self.has_item(m.item_id@)
                    ==> r == Ok::<MovementDetails, ApiError>(self.details_of(m))
            }),
    {
        if !is_uuid(id.as_str()) {
            return Err(ApiError::ValidationError(ValidationCode::InvalidUuid));
        }
        let i = match self.find_movement(id) {
            Some(i) => i,
            None => {
                return Err(ApiError::IdNotFound);
            },
        };
        proof {
            self.lemma_movement_at_is(id@, i as int);
        }
        let pi = match self.find_printer(&self.movements[i].printer_id) {
            Some(pi) => pi,
            None => {
                return Err(ApiError::IdNotFound);
            },
        };
        proof {
            self.lemma_printer_at_is(self.movements@[i as int].printer_id@, pi as int);
        }
        let item: ItemDetails;
        if let Some(ti) = self.find_toner(&self.movements[i].item_id) {
            proof {
                self.lemma_toner_at_is(self.movements@[i as int].item_id@, ti as int);
            }
            item = ItemDetails {
                id: self.toners[ti].id.clone(),
                name: self.toners[ti].name.clone(),
            };
        } else if let Some(di) = self.find_drum(&self.movements[i].item_id) {
            proof {
                self.lemma_drum_at_is(self.movements@[i as int].item_id@, di as int);
            }
            item = ItemDetails {
                id: self.drums[di].id.clone(),
                name: self.drums[di].name.clone(),
            };
        } else {
            return Err(ApiError::DatabaseError);
        }
        Ok(
            MovementDetails {
                id: self.movements[i].id.clone(),
                printer: PrinterDetails {
                    id: self.printers[pi].id.clone(),
                    name: self.printers[pi].name.clone(),
                    model: self.printers[pi].model.clone(),
                },
                item,
                quantity: self.movements[i].quantity,
                created_at: self.movements[i].created_at,
            },
        )
    }

    /// Whether this ledger row would fail the list read: its printer is still
    /// there, so the row survives the join, but its item resolves to neither
    /// catalog.
    pub open spec fn poisons_listing(self, m: Movement) -> bool {
        self.has_printer(m.printer_id@) && !self.has_item(m.item_id@)
    }

    /// What the list read returns: the rows whose printer exists, in ledger
    /// order, each denormalized.
    pub open spec fn spec_show(self, s: Seq<Movement>) -> Seq<MovementDetails>
        decreases s.len(),
    {
        if s.len() == 0 {
            Seq::empty()
        } else {
            let init = self.spec_show(s.drop_last());
            let m = s.last();
            if self.has_printer(m.printer_id@) {
                init.push(self.details_of(m))
            } else {
                init
            }
        }
    }

    /// `GET /movements`: every ledger row joined with its printer and its
    /// resolved item, in ledger order.
    pub fn show_movements(&self) -> (r: Result<Vec<MovementDetails>, ApiError>)
        requires
            self.wf(),
        ensures
            (exists|k: int|
                0 <= k < self.movements@.len() && self.poisons_listing(
                    #[trigger] self.movements@[k],
                )) ==> r == Err::<Vec<MovementDetails>, ApiError>(ApiError::DatabaseError),
            !(exists|k: int|
                0 <= k < self.movements@.len() && self.poisons_listing(
                    #[trigger] self.movements@[k],
                )) ==> (r matches Ok(ds) && ds@ == self.spec_show(self.movements@)),
    {
        let mut out: Vec<MovementDetails> = Vec::new();
        let n = self.movements.len();
        let mut i: usize = 0;
        while i < n
            invariant
                self.wf(),
                n == self.movements@.len(),
                i <= n,
                forall|k: int|
                    0 <= k < i ==> !self.poisons_listing(#[trigger] self.movements@[k]),
                out@ == self.spec_show(self.movements@.subrange(0, i as int)),
            decreases n - i,
        {
            let ghost prefix = self.movements@.subrange(0, i as int);
            let ghost prefix1 = self.movements@.subrange(0, i as int + 1);
            proof {
                assert(prefix1.drop_last() =~= prefix);
                assert(prefix1.last() == self.movements@[i as int]);
            }
            if let Some(pi) = self.find_printer(&self.movements[i].printer_id) {
                proof {
                    self.lemma_printer_at_is(self.movements@[i as int].printer_id@, pi as int);
                }
                let item: ItemDetails;
                if let Some(ti) = self.find_toner(&self.movements[i].item_id) {
                    proof {
                        self.lemma_toner_at_is(self.movements@[i as int].item_id@, ti as int);
                    }
                    item = ItemDetails {
                        id: self.toners[ti].id.clone(),
                        name: self.toners[ti].name.clone(),
                    };
                } else if let Some(di) = self.find_drum(&self.movements[i].item_id) {
                    proof {
                        self.lemma_drum_at_is(self.movements@[i as int].item_id@, di as int);
                    }
                    item = ItemDetails {
                        id: self.drums[di].id.clone(),
                        name: self.drums[di].name.clone(),
                    };
                } else {
                    return Err(ApiError::DatabaseError);
                }
                out.push(
                    MovementDetails {
                        id: self.movements[i].id.clone(),
                        printer: PrinterDetails {
                            id: self.printers[pi].id.clone(),
                            name: self.printers[pi].name.clone(),
                            model: self.printers[pi].model.clone(),
                        },
                        item,
                        quantity: self.movements[i].quantity,
                        created_at: self.movements[i].created_at,
                    },
                );
            }
            i = i + 1;
        }
        proof {
            assert(self.movements@.subrange(0, n as int) =~= self.movements@);
        }
        Ok(out)
    }
}

// No lost updates: concurrent writers against the same item are serialized
// (a row lock on the item row, or an atomic in-place increment, held together
// with the ledger insert in one transaction), so any interleaving is some
// serial chain of whole transactions. The law below covers every such chain.
impl Store {
    /// The summed quantity of a batch of create requests.
    pub open spec fn sum_quantities(reqs: Seq<CreateMovementRequest>) -> int
        decreases reqs.len(),
    {
        if reqs.len() == 0 {
            0
        } else {
            Self::sum_quantities(reqs.drop_last()) + reqs.last().quantity
        }
    }

    /// How a stock column responds to a batch: an absent count stays absent,
    /// a present count grows by the whole sum.
    pub open spec fn stock_accumulated(a: Option<i32>, b: Option<i32>, total: int) -> bool {
        match (a, b) {
            (Some(x), Some(y)) => y == x + total,
            (None, None) => true,
            _ => false,
        }
    }

    /// No lost updates: across any serial chain of successful creates that
    /// all target the same item, the item's final stock is its initial stock
    /// plus the sum of all quantities, and the ledger has grown by exactly
    /// one row per create. `states` are the stores between the transactions:
    /// `states[k]` steps to `states[k + 1]` by the create described by
    /// `reqs[k]`, `ids[k]` and `cas[k]`, exactly as the success case of
    /// [`Store::create_movement_with`] ensures it.
    pub proof fn lemma_no_lost_updates(
        states: Seq<Store>,
        reqs: Seq<CreateMovementRequest>,
        ids: Seq<Seq<char>>,
        cas: Seq<i64>,
        item: Seq<char>,
    )
        requires
            states.len() == reqs.len() + 1,
            ids.len() == reqs.len(),
            cas.len() == reqs.len(),
            forall|k: int| 0 <= k < states.len() ==> (#[trigger] states[k]).wf(),
            forall|k: int|
                0 <= k < reqs.len() ==> Self::movement_created(
                    states[k],
                    states[k + 1],
                    #[trigger] reqs[k],
                    ids[k],
                    cas[k],
                ),
            forall|k: int| 0 <= k < reqs.len() ==> (#[trigger] reqs[k]).item_id@ == item,
            states[0].has_item(item),
        ensures
            states[states.len() - 1].has_item(item),
            states[states.len() - 1].has_toner(item) == states[0].has_toner(item),
            Self::stock_accumulated(
                states[0].stock_of(item),
                states[states.len() - 1].stock_of(item),
                Self::sum_quantities(reqs),
            ),
            states[states.len() - 1].movements@.len() == states[0].movements@.len() + reqs.len(),
        decreases reqs.len(),
    {
        if reqs.len() == 0 {
            assert(states[states.len() - 1] == states[0]);
        } else {
            let n = reqs.len() as int;
            let states0 = states.drop_last();
            let reqs0 = reqs.drop_last();
            assert forall|k: int| 0 <= k < states0.len() implies (#[trigger] states0[k]).wf() by {
                assert(states0[k] == states[k]);
            }
            assert forall|k: int|
                0 <= k < reqs0.len() implies Self::movement_created(
                states0[k],
                states0[k + 1],
                #[trigger] reqs0[k],
                ids.drop_last()[k],
                cas.drop_last()[k],
            ) by {
                assert(states0[k] == states[k] && states0[k + 1] == states[k + 1]);
                assert(reqs0[k] == reqs[k]);
                assert(ids.drop_last()[k] == ids[k] && cas.drop_last()[k] == cas[k]);
            }
            assert forall|k: int|
                0 <= k < reqs0.len() implies (#[trigger] reqs0[k]).item_id@ == item by {
                assert(reqs0[k] == reqs[k]);
            }
            Self::lemma_no_lost_updates(states0, reqs0, ids.drop_last(), cas.drop_last(), item);
            let pre = states[n - 1];
            let post = states[n];
            let req = reqs[n - 1];
            assert(states0[states0.len() - 1] == pre);
            assert(Self::movement_created(pre, post, req, ids[n - 1], cas[n - 1]));
            assert(req.item_id@ == item);
            if pre.has_toner(item) {
                let idx = pre.toner_at(item);
                assert(0 <= idx < pre.toners@.len() && pre.toners@[idx].id@ == item);
                assert(Self::toner_bumped(pre, post, item, req.quantity));
                assert(post.toners@[idx].id@ == item);
                post.lemma_toner_at_is(item, idx);
                assert(Self::stock_bump_ok(
                    pre.toners@[idx].stock,
                    post.toners@[idx].stock,
                    req.quantity,
                ));
            } else {
                let idx = pre.drum_at(item);
                assert(0 <= idx < pre.drums@.len() && pre.drums@[idx].id@ == item);
                assert(Self::drum_bumped(pre, post, item, req.quantity));
                assert(post.drums@[idx].id@ == item);
                post.lemma_drum_at_is(item, idx);
                assert(Self::stock_bump_ok(
                    pre.drums@[idx].stock,
                    post.drums@[idx].stock,
                    req.quantity,
                ));
                assert(!post.has_toner(item));
            }
            assert(reqs0 == reqs.drop_last() && reqs.last() == req);
        }
    }
}

} // verus!
