//! Catalog repositories: one in-process store per entity kind, with
//! list-all, get-by-id, list-by-category, create, update, delete, a
//! one-shot seed operation, and the conditional stock decrement that the
//! sale workflow relies on.
//!
//! Lookup is by the logical `id` field and always returns the first
//! match; the repositories perform no validation of their own.

use vstd::prelude::*;

use crate::error::ApiError;
use crate::ids::fresh_id;
use crate::models::{
    Build, BuildV, CreateBuildRequest, CreateHandmadeProductRequest, CreateProductRequest,
    HandmadeProduct, HandmadeProductV, Product, ProductType, ProductV,
};
use crate::strutil::str_eq;

verus! {

/// Index of the first element satisfying `p`, or -1 if there is none.
pub open spec fn find_idx<T>(s: Seq<T>, p: spec_fn(T) -> bool) -> int
    decreases s.len(),
{
    if s.len() == 0 {
        -1
    } else if p(s[0]) {
        0
    } else if find_idx(s.drop_first(), p) == -1 {
        -1
    } else {
        find_idx(s.drop_first(), p) + 1
    }
}

/// The first element satisfying `p`, if any.
pub open spec fn find_first<T>(s: Seq<T>, p: spec_fn(T) -> bool) -> Option<T> {
    let i = find_idx(s, p);
    if i == -1 {
        None
    } else {
        Some(s[i])
    }
}

/// If nothing before `i` satisfies `p` and `s[i]` does, the first match
/// is at `i`.
pub proof fn lemma_find_idx_here<T>(s: Seq<T>, p: spec_fn(T) -> bool, i: int)
    requires
        0 <= i < s.len(),
        p(s[i]),
        forall|j: int| 0 <= j < i ==> !p(#[trigger] s[j]),
    ensures
        find_idx(s, p) == i,
    decreases i,
{
    if i > 0 {
        lemma_find_idx_here(s.drop_first(), p, i - 1);
    }
}

/// If nothing satisfies `p`, there is no first match.
pub proof fn lemma_find_idx_none<T>(s: Seq<T>, p: spec_fn(T) -> bool)
    requires
        forall|j: int| 0 <= j < s.len() ==> !p(#[trigger] s[j]),
    ensures
        find_idx(s, p) == -1,
    decreases s.len(),
{
    if s.len() > 0 {
        lemma_find_idx_none(s.drop_first(), p);
    }
}

/// The first match, when it exists, is in range, satisfies `p`, and
/// nothing before it does.
pub proof fn lemma_find_idx_works<T>(s: Seq<T>, p: spec_fn(T) -> bool)
    ensures
        find_idx(s, p) == -1 || (0 <= find_idx(s, p) < s.len() && p(s[find_idx(s, p)])),
        find_idx(s, p) != -1 ==> forall|j: int| 0 <= j < find_idx(s, p) ==> !p(#[trigger] s[j]),
        find_idx(s, p) == -1 ==> forall|j: int| 0 <= j < s.len() ==> !p(#[trigger] s[j]),
    decreases s.len(),
{
    if s.len() > 0 && !p(s[0]) {
        lemma_find_idx_works(s.drop_first(), p);
        let t = s.drop_first();
        let k = find_idx(t, p);
        if k != -1 {
            assert(find_idx(s, p) == k + 1);
            assert forall|j: int| 0 <= j < k + 1 implies !p(#[trigger] s[j]) by {
                if j > 0 {
                    assert(!p(t[j - 1]));
                    assert(t[j - 1] == s[j]);
                }
            }
        } else {
            assert forall|j: int| 0 <= j < s.len() implies !p(#[trigger] s[j]) by {
                if j > 0 {
                    assert(!p(t[j - 1]));
                    assert(t[j - 1] == s[j]);
                }
            }
        }
    }
}

/// Replacing the first match with another match keeps it the first
/// match.
pub proof fn lemma_find_update_here<T>(s: Seq<T>, p: spec_fn(T) -> bool, x: T)
    requires
        find_idx(s, p) != -1,
        p(x),
    ensures
        find_idx(s.update(find_idx(s, p), x), p) == find_idx(s, p),
{
    let i = find_idx(s, p);
    lemma_find_idx_works(s, p);
    let t = s.update(i, x);
    assert(t[i] == x);
    assert(forall|j: int| 0 <= j < i ==> t[j] == s[j]);
    lemma_find_idx_here(t, p, i);
}

/// A category listing is exactly the matching subset of the full
/// listing: everything it returns satisfies the predicate and comes
/// from the store, and everything in the store that satisfies the
/// predicate is returned — with an empty result, not an error, when
/// nothing matches.
pub proof fn lemma_filter_exact<T>(s: Seq<T>, p: spec_fn(T) -> bool)
    ensures
        forall|i: int|
            0 <= i < s.filter(p).len() ==> p(#[trigger] s.filter(p)[i]) && s.contains(
                s.filter(p)[i],
            ),
        forall|i: int| 0 <= i < s.len() && p(#[trigger] s[i]) ==> s.filter(p).contains(s[i]),
        s.filter(p).len() <= s.len(),
{
    assert forall|i: int|
        0 <= i < s.filter(p).len() implies p(#[trigger] s.filter(p)[i]) && s.contains(
        s.filter(p)[i],
    ) by {
        s.lemma_filter_pred(p, i);
        lemma_filter_member(s, p, i);
    }
    assert forall|i: int| 0 <= i < s.len() && p(#[trigger] s[i]) implies s.filter(p).contains(
        s[i],
    ) by {
        s.lemma_filter_contains(p, i);
    }
    s.lemma_filter_len(p);
}

/// Every element of a filtered sequence occurs in the sequence it was
/// filtered from.
proof fn lemma_filter_member<T>(s: Seq<T>, p: spec_fn(T) -> bool, i: int)
    requires
        0 <= i < s.filter(p).len(),
    ensures
        s.contains(s.filter(p)[i]),
    decreases s.len(),
{
    reveal(Seq::filter);
    s.lemma_filter_len(p);
    if s.len() > 0 {
        let rest = s.drop_last().filter(p);
        if i < rest.len() {
            lemma_filter_member(s.drop_last(), p, i);
            let j = choose|j: int|
                0 <= j < s.drop_last().len() && s.drop_last()[j] == s.drop_last().filter(p)[i];
            assert(s[j] == s.filter(p)[i]);
        } else {
            assert(s.filter(p)[i] == s.last());
        }
    }
}

/// Creating an entity whose id is not yet present and then reading that
/// id back returns exactly the created entity.
pub proof fn lemma_create_then_get<T>(s: Seq<T>, p: spec_fn(T) -> bool, x: T)
    requires
        find_idx(s, p) == -1,
        p(x),
    ensures
        find_first(s.push(x), p) == Some(x),
{
    lemma_find_idx_works(s, p);
    let t = s.push(x);
    assert(t[s.len() as int] == x);
    assert(forall|j: int| 0 <= j < s.len() ==> t[j] == s[j]);
    lemma_find_idx_here(t, p, s.len() as int);
}

/// Whether an entity matches a logical id.
pub open spec fn product_has_id(id: Seq<char>) -> spec_fn(ProductV) -> bool {
    |x: ProductV| x.id == id
}

/// Whether an entity belongs to a category.
pub open spec fn product_in_category(c: Seq<char>) -> spec_fn(ProductV) -> bool {
    |x: ProductV| x.category == c
}

/// The entity `p` with its stock replaced.
pub open spec fn product_with_stock(p: ProductV, stock: Option<u32>) -> ProductV {
    ProductV { stock, ..p }
}

/// The repository of manufactured products.
pub struct ProductService {
    pub items: Vec<Product>,
}

impl View for ProductService {
    type V = Seq<ProductV>;

    open spec fn view(&self) -> Seq<ProductV> {
        self.items.deep_view()
    }
}

impl ProductService {
    /// An empty repository.
    pub fn new() -> (r: Self)
        ensures
            r@ == Seq::<ProductV>::empty(),
    {
        let r = ProductService { items: Vec::new() };
        assert(r@ =~= Seq::<ProductV>::empty());
        r
    }

    /// All entities, in insertion order.
    pub fn get_all_products(&self) -> (r: Vec<Product>)
        ensures
            r.deep_view() == self@,
    {
        let mut out: Vec<Product> = Vec::new();
        let mut i: usize = 0;
        while i < self.items.len()
            invariant
                i <= self.items.len(),
                out.deep_view().len() == i,
                forall|j: int| 0 <= j < i ==> out.deep_view()[j] == self@[j],
            decreases self.items.len() - i,
        {
            out.push(self.items[i].clone());
            i = i + 1;
        }
        assert(out.deep_view() =~= self@);
        out
    }

    /// The entity with logical id `id`, if present (first match).
    pub fn get_product_by_id(&self, id: &str) -> (r: Option<Product>)
        ensures
            r.deep_view() == find_first(self@, product_has_id(id@)),
    {
        let ghost p = product_has_id(id@);
        let mut i: usize = 0;
        while i < self.items.len()
            invariant
                i <= self.items.len(),
                forall|j: int| 0 <= j < i ==> !p(#[trigger] self@[j]),
                p == product_has_id(id@),
            decreases self.items.len() - i,
        {
            if str_eq(self.items[i].id.as_str(), id) {
                proof {
                    lemma_find_idx_here(self@, p, i as int);
                }
                return Some(self.items[i].clone());
            }
            i = i + 1;
        }
        proof {
            lemma_find_idx_none(self@, p);
        }
        None
    }

    /// Exactly the entities whose category equals `category`, in order.
    pub fn get_products_by_category(&self, category: &str) -> (r: Vec<Product>)
        ensures
            r.deep_view() == self@.filter(product_in_category(category@)),
    {
        let ghost p = product_in_category(category@);
        let mut out: Vec<Product> = Vec::new();
        let mut i: usize = 0;
        assert(self@.subrange(0, 0).filter(p) =~= Seq::<ProductV>::empty());
        while i < self.items.len()
            invariant
                i <= self.items.len(),
                out.deep_view() == self@.subrange(0, i as int).filter(p),
                p == product_in_category(category@),
            decreases self.items.len() - i,
        {
            let ghost pre = self@.subrange(0, i as int);
            let ghost post = self@.subrange(0, i as int + 1);
            proof {
                assert(post.drop_last() =~= pre);
                reveal(Seq::filter);
            }
            if str_eq(self.items[i].category.as_str(), category) {
                out.push(self.items[i].clone());
                assert(out.deep_view() =~= post.filter(p));
            } else {
                assert(out.deep_view() =~= post.filter(p));
            }
            i = i + 1;
        }
        assert(self@.subrange(0, self.items.len() as int) =~= self@);
        out
    }

    /// Replace the whole collection with a fixed dataset. Destructive:
    /// everything previously stored is dropped.
    pub fn seed_products(&mut self, items: Vec<Product>)
        ensures
            final(self)@ == items.deep_view(),
    {
        self.items = items;
    }

    /// Insert an entity as given; the caller is responsible for its id
    /// and timestamps.
    pub fn create_product(&mut self, product: Product)
        ensures
            final(self)@ == old(self)@.push(product@),
    {
        let ghost pv = product@;
        self.items.push(product);
        assert(self@ =~= old(self)@.push(pv));
    }

    /// Replace all fields of the entity with id `id`. `NotFound` when no
    /// entity has that id; the store is unchanged then.
    pub fn update_product(&mut self, id: &str, product: Product) -> (r: Result<(), ApiError>)
        ensures
            ({
                let i = find_idx(old(self)@, product_has_id(id@));
                if i == -1 {
                    r == Err::<(), ApiError>(ApiError::NotFound(ProductType::Product))
                        && final(self)@ == old(self)@
                } else {
                    r == Ok::<(), ApiError>(()) && final(self)@ == old(self)@.update(i, product@)
                }
            }),
    {
        let ghost p = product_has_id(id@);
        let mut i: usize = 0;
        while i < self.items.len()
            invariant
                i <= self.items.len(),
                self@ == old(self)@,
                self.items@ == old(self).items@,
                forall|j: int| 0 <= j < i ==> !p(#[trigger] self@[j]),
                p == product_has_id(id@),
            decreases self.items.len() - i,
        {
            if str_eq(self.items[i].id.as_str(), id) {
                proof {
                    lemma_find_idx_here(self@, p, i as int);
                }
                let ghost pv = product@;
                self.items.set(i, product);
                assert(self@ =~= old(self)@.update(i as int, pv));
                return Ok(());
            }
            i = i + 1;
        }
        proof {
            lemma_find_idx_none(self@, p);
        }
        Err(ApiError::NotFound(ProductType::Product))
    }

    /// Remove the entity with id `id`; when no entity has that id the
    /// call is a successful no-op and the store is unchanged.
    pub fn delete_product(&mut self, id: &str) -> (r: Result<(), ApiError>)
        ensures
            r == Ok::<(), ApiError>(()),
            ({
                let i = find_idx(old(self)@, product_has_id(id@));
                if i == -1 {
                    final(self)@ == old(self)@
                } else {
                    final(self)@ == old(self)@.remove(i)
                }
            }),
    {
        let ghost p = product_has_id(id@);
        let mut i: usize = 0;
        while i < self.items.len()
            invariant
                i <= self.items.len(),
                self@ == old(self)@,
                self.items@ == old(self).items@,
                forall|j: int| 0 <= j < i ==> !p(#[trigger] self@[j]),
                p == product_has_id(id@),
            decreases self.items.len() - i,
        {
            if str_eq(self.items[i].id.as_str(), id) {
                proof {
                    lemma_find_idx_here(self@, p, i as int);
                }
                self.items.remove(i);
                assert(self@ =~= old(self)@.remove(i as int));
                return Ok(());
            }
            i = i + 1;
        }
        proof {
            lemma_find_idx_none(self@, p);
        }
        Ok(())
    }

    /// Atomically check and decrement the stock of the entity with id
    /// `id`: the check and the write happen under one exclusive borrow,
    /// so no concurrent sale can interleave between them. On any failure
    /// the store is unchanged.
    pub fn decrement_stock(&mut self, id: &str, quantity: u32) -> (r: Result<(), ApiError>)
        ensures
            ({
                let i = find_idx(old(self)@, product_has_id(id@));
                if i == -1 {
                    r == Err::<(), ApiError>(ApiError::NotFound(ProductType::Product))
                        && final(self)@ == old(self)@
                } else {
                    match old(self)@[i].stock {
                        None => r == Err::<(), ApiError>(ApiError::MissingStockInfo)
                            && final(self)@ == old(self)@,
                        Some(s) => if s < quantity {
                            r == Err::<(), ApiError>(ApiError::InsufficientStock)
                                && final(self)@ == old(self)@
                        } else {
                            r == Ok::<(), ApiError>(()) && final(self)@ == old(self)@.update(
                                i,
                                product_with_stock(old(self)@[i], Some((s - quantity) as u32)),
                            )
                        },
                    }
                }
            }),
    {
        let ghost p = product_has_id(id@);
        let mut i: usize = 0;
        while i < self.items.len()
            invariant
                i <= self.items.len(),
                self@ == old(self)@,
                self.items@ == old(self).items@,
                forall|j: int| 0 <= j < i ==> !p(#[trigger] self@[j]),
                p == product_has_id(id@),
            decreases self.items.len() - i,
        {
            if str_eq(self.items[i].id.as_str(), id) {
                proof {
                    lemma_find_idx_here(self@, p, i as int);
                }
                match self.items[i].stock {
                    None => {
                        return Err(ApiError::MissingStockInfo);
                    },
                    Some(s) => {
                        if s < quantity {
                            return Err(ApiError::InsufficientStock);
                        }
                        let mut updated = self.items[i].clone();
                        updated.stock = Some(s - quantity);
                        let ghost uv = updated@;
                        self.items.set(i, updated);
                        assert(self@ =~= old(self)@.update(
                            i as int,
                            product_with_stock(old(self)@[i as int], Some((s - quantity) as u32)),
                        ));
                        return Ok(());
                    },
                }
            }
            i = i + 1;
        }
        proof {
            lemma_find_idx_none(self@, p);
        }
        Err(ApiError::NotFound(ProductType::Product))
    }
}

/// Whether an entity matches a logical id.
pub open spec fn handmade_has_id(id: Seq<char>) -> spec_fn(HandmadeProductV) -> bool {
    |x: HandmadeProductV| x.id == id
}

/// Whether an entity belongs to a category.
pub open spec fn handmade_in_category(c: Seq<char>) -> spec_fn(HandmadeProductV) -> bool {
    |x: HandmadeProductV| x.category == c
}

/// The entity `p` with its stock replaced.
pub open spec fn handmade_with_stock(p: HandmadeProductV, stock: Option<u32>) -> HandmadeProductV {
    HandmadeProductV { stock, ..p }
}

/// The repository of handmade products.
pub struct HandmadeService {
    pub items: Vec<HandmadeProduct>,
}

impl View for HandmadeService {
    type V = Seq<HandmadeProductV>;

    open spec fn view(&self) -> Seq<HandmadeProductV> {
        self.items.deep_view()
    }
}

impl HandmadeService {
    /// An empty repository.
    pub fn new() -> (r: Self)
        ensures
            r@ == Seq::<HandmadeProductV>::empty(),
    {
        let r = HandmadeService { items: Vec::new() };
        assert(r@ =~= Seq::<HandmadeProductV>::empty());
        r
    }

    /// All entities, in insertion order.
    pub fn get_all_handmade(&self) -> (r: Vec<HandmadeProduct>)
        ensures
            r.deep_view() == self@,
    {
        let mut out: Vec<HandmadeProduct> = Vec::new();
        let mut i: usize = 0;
        while i < self.items.len()
            invariant
                i <= self.items.len(),
                out.deep_view().len() == i,
                forall|j: int| 0 <= j < i ==> out.deep_view()[j] == self@[j],
            decreases self.items.len() - i,
        {
            out.push(self.items[i].clone());
            i = i + 1;
        }
        assert(out.deep_view() =~= self@);
        out
    }

    /// The entity with logical id `id`, if present (first match).
    pub fn get_handmade_by_id(&self, id: &str) -> (r: Option<HandmadeProduct>)
        ensures
            r.deep_view() == find_first(self@, handmade_has_id(id@)),
    {
        let ghost p = handmade_has_id(id@);
        let mut i: usize = 0;
        while i < self.items.len()
            invariant
                i <= self.items.len(),
                forall|j: int| 0 <= j < i ==> !p(#[trigger] self@[j]),
                p == handmade_has_id(id@),
            decreases self.items.len() - i,
        {
            if str_eq(self.items[i].id.as_str(), id) {
                proof {
                    lemma_find_idx_here(self@, p, i as int);
                }
                return Some(self.items[i].clone());
            }
            i = i + 1;
        }
        proof {
            lemma_find_idx_none(self@, p);
        }
        None
    }

    /// Exactly the entities whose category equals `category`, in order.
    pub fn get_handmade_by_category(&self, category: &str) -> (r: Vec<HandmadeProduct>)
        ensures
            r.deep_view() == self@.filter(handmade_in_category(category@)),
    {
        let ghost p = handmade_in_category(category@);
        let mut out: Vec<HandmadeProduct> = Vec::new();
        let mut i: usize = 0;
        assert(self@.subrange(0, 0).filter(p) =~= Seq::<HandmadeProductV>::empty());
        while i < self.items.len()
            invariant
                i <= self.items.len(),
                out.deep_view() == self@.subrange(0, i as int).filter(p),
                p == handmade_in_category(category@),
            decreases self.items.len() - i,
        {
            let ghost pre = self@.subrange(0, i as int);
            let ghost post = self@.subrange(0, i as int + 1);
            proof {
                assert(post.drop_last() =~= pre);
                reveal(Seq::filter);
            }
            if str_eq(self.items[i].category.as_str(), category) {
                out.push(self.items[i].clone());
                assert(out.deep_view() =~= post.filter(p));
            } else {
                assert(out.deep_view() =~= post.filter(p));
            }
            i = i + 1;
        }
        assert(self@.subrange(0, self.items.len() as int) =~= self@);
        out
    }

    /// Replace the whole collection with a fixed dataset. Destructive:
    /// everything previously stored is dropped.
    pub fn seed_handmade(&mut self, items: Vec<HandmadeProduct>)
        ensures
            final(self)@ == items.deep_view(),
    {
        self.items = items;
    }

    /// Insert an entity as given; the caller is responsible for its id
    /// and timestamps.
    pub fn create_handmade(&mut self, product: HandmadeProduct)
        ensures
            final(self)@ == old(self)@.push(product@),
    {
        let ghost pv = product@;
        self.items.push(product);
        assert(self@ =~= old(self)@.push(pv));
    }

    /// Replace all fields of the entity with id `id`. `NotFound` when no
    /// entity has that id; the store is unchanged then.
    pub fn update_handmade(&mut self, id: &str, product: HandmadeProduct) -> (r: Result<(), ApiError>)
        ensures
            ({
                let i = find_idx(old(self)@, handmade_has_id(id@));
                if i == -1 {
                    r == Err::<(), ApiError>(ApiError::NotFound(ProductType::Handmade))
                        && final(self)@ == old(self)@
                } else {
                    r == Ok::<(), ApiError>(()) && final(self)@ == old(self)@.update(i, product@)
                }
            }),
    {
        let ghost p = handmade_has_id(id@);
        let mut i: usize = 0;
        while i < self.items.len()
            invariant
                i <= self.items.len(),
                self@ == old(self)@,
                self.items@ == old(self).items@,
                forall|j: int| 0 <= j < i ==> !p(#[trigger] self@[j]),
                p == handmade_has_id(id@),
            decreases self.items.len() - i,
        {
            if str_eq(self.items[i].id.as_str(), id) {
                proof {
                    lemma_find_idx_here(self@, p, i as int);
                }
                let ghost pv = product@;
                self.items.set(i, product);
                assert(self@ =~= old(self)@.update(i as int, pv));
                return Ok(());
            }
            i = i + 1;
        }
        proof {
            lemma_find_idx_none(self@, p);
        }
        Err(ApiError::NotFound(ProductType::Handmade))
    }

    /// Remove the entity with id `id`; when no entity has that id the
    /// call is a successful no-op and the store is unchanged.
    pub fn delete_handmade(&mut self, id: &str) -> (r: Result<(), ApiError>)
        ensures
            r == Ok::<(), ApiError>(()),
            ({
                let i = find_idx(old(self)@, handmade_has_id(id@));
                if i == -1 {
                    final(self)@ == old(self)@
                } else {
                    final(self)@ == old(self)@.remove(i)
                }
            }),
    {
        let ghost p = handmade_has_id(id@);
        let mut i: usize = 0;
        while i < self.items.len()
            invariant
                i <= self.items.len(),
                self@ == old(self)@,
                self.items@ == old(self).items@,
                forall|j: int| 0 <= j < i ==> !p(#[trigger] self@[j]),
                p == handmade_has_id(id@),
            decreases self.items.len() - i,
        {
            if str_eq(self.items[i].id.as_str(), id) {
                proof {
                    lemma_find_idx_here(self@, p, i as int);
                }
                self.items.remove(i);
                assert(self@ =~= old(self)@.remove(i as int));
                return Ok(());
            }
            i = i + 1;
        }
        proof {
            lemma_find_idx_none(self@, p);
        }
        Ok(())
    }

    /// Atomically check and decrement the stock of the entity with id
    /// `id`: the check and the write happen under one exclusive borrow,
    /// so no concurrent sale can interleave between them. On any failure
    /// the store is unchanged.
    pub fn decrement_stock(&mut self, id: &str, quantity: u32) -> (r: Result<(), ApiError>)
        ensures
            ({
                let i = find_idx(old(self)@, handmade_has_id(id@));
                if i == -1 {
                    r == Err::<(), ApiError>(ApiError::NotFound(ProductType::Handmade))
                        && final(self)@ == old(self)@
                } else {
                    match old(self)@[i].stock {
                        None => r == Err::<(), ApiError>(ApiError::MissingStockInfo)
                            && final(self)@ == old(self)@,
                        Some(s) => if s < quantity {
                            r == Err::<(), ApiError>(ApiError::InsufficientStock)
                                && final(self)@ == old(self)@
                        } else {
                            r == Ok::<(), ApiError>(()) && final(self)@ == old(self)@.update(
                                i,
                                handmade_with_stock(old(self)@[i], Some((s - quantity) as u32)),
                            )
                        },
                    }
                }
            }),
    {
        let ghost p = handmade_has_id(id@);
        let mut i: usize = 0;
        while i < self.items.len()
            invariant
                i <= self.items.len(),
                self@ == old(self)@,
                self.items@ == old(self).items@,
                forall|j: int| 0 <= j < i ==> !p(#[trigger] self@[j]),
                p == handmade_has_id(id@),
            decreases self.items.len() - i,
        {
            if str_eq(self.items[i].id.as_str(), id) {
                proof {
                    lemma_find_idx_here(self@, p, i as int);
                }
                match self.items[i].stock {
                    None => {
                        return Err(ApiError::MissingStockInfo);
                    },
                    Some(s) => {
                        if s < quantity {
                            return Err(ApiError::InsufficientStock);
                        }
                        let mut updated = self.items[i].clone();
                        updated.stock = Some(s - quantity);
                        let ghost uv = updated@;
                        self.items.set(i, updated);
                        assert(self@ =~= old(self)@.update(
                            i as int,
                            handmade_with_stock(old(self)@[i as int], Some((s - quantity) as u32)),
                        ));
                        return Ok(());
                    },
                }
            }
            i = i + 1;
        }
        proof {
            lemma_find_idx_none(self@, p);
        }
        Err(ApiError::NotFound(ProductType::Handmade))
    }
}

/// Whether an entity matches a logical id.
pub open spec fn build_has_id(id: Seq<char>) -> spec_fn(BuildV) -> bool {
    |x: BuildV| x.id == id
}

/// Whether an entity belongs to a category.
pub open spec fn build_in_category(c: Seq<char>) -> spec_fn(BuildV) -> bool {
    |x: BuildV| x.category == c
}

/// The entity `p` with its stock replaced.
pub open spec fn build_with_stock(p: BuildV, stock: Option<u32>) -> BuildV {
    BuildV { stock, ..p }
}

/// The repository of builds.
pub struct BuildService {
    pub items: Vec<Build>,
}

impl View for BuildService {
    type V = Seq<BuildV>;

    open spec fn view(&self) -> Seq<BuildV> {
        self.items.deep_view()
    }
}

impl BuildService {
    /// An empty repository.
    pub fn new() -> (r: Self)
        ensures
            r@ == Seq::<BuildV>::empty(),
    {
        let r = BuildService { items: Vec::new() };
        assert(r@ =~= Seq::<BuildV>::empty());
        r
    }

    /// All entities, in insertion order.
    pub fn get_all_builds(&self) -> (r: Vec<Build>)
        ensures
            r.deep_view() == self@,
    {
        let mut out: Vec<Build> = Vec::new();
        let mut i: usize = 0;
        while i < self.items.len()
            invariant
                i <= self.items.len(),
                out.deep_view().len() == i,
                forall|j: int| 0 <= j < i ==> out.deep_view()[j] == self@[j],
            decreases self.items.len() - i,
        {
            out.push(self.items[i].clone());
            i = i + 1;
        }
        assert(out.deep_view() =~= self@);
        out
    }

    /// The entity with logical id `id`, if present (first match).
    pub fn get_build_by_id(&self, id: &str) -> (r: Option<Build>)
        ensures
            r.deep_view() == find_first(self@, build_has_id(id@)),
    {
        let ghost p = build_has_id(id@);
        let mut i: usize = 0;
        while i < self.items.len()
            invariant
                i <= self.items.len(),
                forall|j: int| 0 <= j < i ==> !p(#[trigger] self@[j]),
                p == build_has_id(id@),
            decreases self.items.len() - i,
        {
            if str_eq(self.items[i].id.as_str(), id) {
                proof {
                    lemma_find_idx_here(self@, p, i as int);
                }
                return Some(self.items[i].clone());
            }
            i = i + 1;
        }
        proof {
            lemma_find_idx_none(self@, p);
        }
        None
    }

    /// Exactly the entities whose category equals `category`, in order.
    pub fn get_builds_by_category(&self, category: &str) -> (r: Vec<Build>)
        ensures
            r.deep_view() == self@.filter(build_in_category(category@)),
    {
        let ghost p = build_in_category(category@);
        let mut out: Vec<Build> = Vec::new();
        let mut i: usize = 0;
        assert(self@.subrange(0, 0).filter(p) =~= Seq::<BuildV>::empty());
        while i < self.items.len()
            invariant
                i <= self.items.len(),
                out.deep_view() == self@.subrange(0, i as int).filter(p),
                p == build_in_category(category@),
            decreases self.items.len() - i,
        {
            let ghost pre = self@.subrange(0, i as int);
            let ghost post = self@.subrange(0, i as int + 1);
            proof {
                assert(post.drop_last() =~= pre);
                reveal(Seq::filter);
            }
            if str_eq(self.items[i].category.as_str(), category) {
                out.push(self.items[i].clone());
                assert(out.deep_view() =~= post.filter(p));
            } else {
                assert(out.deep_view() =~= post.filter(p));
            }
            i = i + 1;
        }
        assert(self@.subrange(0, self.items.len() as int) =~= self@);
        out
    }

    /// Replace the whole collection with a fixed dataset. Destructive:
    /// everything previously stored is dropped.
    pub fn seed_builds(&mut self, items: Vec<Build>)
        ensures
            final(self)@ == items.deep_view(),
    {
        self.items = items;
    }

    /// Insert an entity as given; the caller is responsible for its id
    /// and timestamps.
    pub fn create_build(&mut self, product: Build)
        ensures
            final(self)@ == old(self)@.push(product@),
    {
        let ghost pv = product@;
        self.items.push(product);
        assert(self@ =~= old(self)@.push(pv));
    }

    /// Replace all fields of the entity with id `id`. `NotFound` when no
    /// entity has that id; the store is unchanged then.
    pub fn update_build(&mut self, id: &str, product: Build) -> (r: Result<(), ApiError>)
        ensures
            ({
                let i = find_idx(old(self)@, build_has_id(id@));
                if i == -1 {
                    r == Err::<(), ApiError>(ApiError::NotFound(ProductType::Build))
                        && final(self)@ == old(self)@
                } else {
                    r == Ok::<(), ApiError>(()) && final(self)@ == old(self)@.update(i, product@)
                }
            }),
    {
        let ghost p = build_has_id(id@);
        let mut i: usize = 0;
        while i < self.items.len()
            invariant
                i <= self.items.len(),
                self@ == old(self)@,
                self.items@ == old(self).items@,
                forall|j: int| 0 <= j < i ==> !p(#[trigger] self@[j]),
                p == build_has_id(id@),
            decreases self.items.len() - i,
        {
            if str_eq(self.items[i].id.as_str(), id) {
                proof {
                    lemma_find_idx_here(self@, p, i as int);
                }
                let ghost pv = product@;
                self.items.set(i, product);
                assert(self@ =~= old(self)@.update(i as int, pv));
                return Ok(());
            }
            i = i + 1;
        }
        proof {
            lemma_find_idx_none(self@, p);
        }
        Err(ApiError::NotFound(ProductType::Build))
    }

    /// Remove the entity with id `id`; when no entity has that id the
    /// call is a successful no-op and the store is unchanged.
    pub fn delete_build(&mut self, id: &str) -> (r: Result<(), ApiError>)
        ensures
            r == Ok::<(), ApiError>(()),
            ({
                let i = find_idx(old(self)@, build_has_id(id@));
                if i == -1 {
                    final(self)@ == old(self)@
                } else {
                    final(self)@ == old(self)@.remove(i)
                }
            }),
    {
        let ghost p = build_has_id(id@);
        let mut i: usize = 0;
        while i < self.items.len()
            invariant
                i <= self.items.len(),
                self@ == old(self)@,
                self.items@ == old(self).items@,
                forall|j: int| 0 <= j < i ==> !p(#[trigger] self@[j]),
                p == build_has_id(id@),
            decreases self.items.len() - i,
        {
            if str_eq(self.items[i].id.as_str(), id) {
                proof {
                    lemma_find_idx_here(self@, p, i as int);
                }
                self.items.remove(i);
                assert(self@ =~= old(self)@.remove(i as int));
                return Ok(());
            }
            i = i + 1;
        }
        proof {
            lemma_find_idx_none(self@, p);
        }
        Ok(())
    }

    /// Atomically check and decrement the stock of the entity with id
    /// `id`: the check and the write happen under one exclusive borrow,
    /// so no concurrent sale can interleave between them. On any failure
    /// the store is unchanged.
    pub fn decrement_stock(&mut self, id: &str, quantity: u32) -> (r: Result<(), ApiError>)
        ensures
            ({
                let i = find_idx(old(self)@, build_has_id(id@));
                if i == -1 {
                    r == Err::<(), ApiError>(ApiError::NotFound(ProductType::Build))
                        && final(self)@ == old(self)@
                } else {
                    match old(self)@[i].stock {
                        None => r == Err::<(), ApiError>(ApiError::MissingStockInfo)
                            && final(self)@ == old(self)@,
                        Some(s) => if s < quantity {
                            r == Err::<(), ApiError>(ApiError::InsufficientStock)
                                && final(self)@ == old(self)@
                        } else {
                            r == Ok::<(), ApiError>(()) && final(self)@ == old(self)@.update(
                                i,
                                build_with_stock(old(self)@[i], Some((s - quantity) as u32)),
                            )
                        },
                    }
                }
            }),
    {
        let ghost p = build_has_id(id@);
        let mut i: usize = 0;
        while i < self.items.len()
            invariant
                i <= self.items.len(),
                self@ == old(self)@,
                self.items@ == old(self).items@,
                forall|j: int| 0 <= j < i ==> !p(#[trigger] self@[j]),
                p == build_has_id(id@),
            decreases self.items.len() - i,
        {
            if str_eq(self.items[i].id.as_str(), id) {
                proof {
                    lemma_find_idx_here(self@, p, i as int);
                }
                match self.items[i].stock {
                    None => {
                        return Err(ApiError::MissingStockInfo);
                    },
                    Some(s) => {
                        if s < quantity {
                            return Err(ApiError::InsufficientStock);
                        }
                        let mut updated = self.items[i].clone();
                        updated.stock = Some(s - quantity);
                        let ghost uv = updated@;
                        self.items.set(i, updated);
                        assert(self@ =~= old(self)@.update(
                            i as int,
                            build_with_stock(old(self)@[i as int], Some((s - quantity) as u32)),
                        ));
                        return Ok(());
                    },
                }
            }
            i = i + 1;
        }
        proof {
            lemma_find_idx_none(self@, p);
        }
        Err(ApiError::NotFound(ProductType::Build))
    }
}


impl ProductService {
    /// Create an entity from a request: the server assigns a fresh id
    /// and both timestamps, every client field is carried over
    /// unchanged, and the entity is stored.
    pub fn create_product_from_request(&mut self, req: CreateProductRequest, now: u64) -> (r:
        Product)
        ensures
            final(self)@ == old(self)@.push(r@),
            r@.id.len() == 36,
            r@.created_at == now,
            r@.updated_at == now,
            r@.name == req.name@,
            r@.description == req.description@,
            r@.price == req.price,
            r@.thumbnail_image == req.thumbnail_image@,
            r@.category == req.category@,
            r@.subcategory == req.subcategory@,
            r@.original_price == req.original_price,
            r@.feature_images == req.feature_images.deep_view(),
            r@.specs == req.specs.deep_view(),
            r@.brand == req.brand.deep_view(),
            r@.stock == req.stock,
            r@.acquisition_date == req.acquisition_date,
            r@.is_new == req.is_new,
            r@.is_popular == req.is_popular,
            r@.is_offer == req.is_offer,
    {
        let product = Product {
            id: fresh_id(),
            name: req.name,
            description: req.description,
            price: req.price,
            thumbnail_image: req.thumbnail_image,
            category: req.category,
            subcategory: req.subcategory,
            original_price: req.original_price,
            feature_images: req.feature_images,
            specs: req.specs,
            brand: req.brand,
            stock: req.stock,
            acquisition_date: req.acquisition_date,
            is_new: req.is_new,
            is_popular: req.is_popular,
            is_offer: req.is_offer,
            created_at: now,
            updated_at: now,
        };
        let copy = product.clone();
        self.create_product(product);
        copy
    }
}

impl HandmadeService {
    /// Create an entity from a request: the server assigns a fresh id
    /// and both timestamps, every client field is carried over
    /// unchanged, and the entity is stored.
    pub fn create_handmade_from_request(
        &mut self,
        req: CreateHandmadeProductRequest,
        now: u64,
    ) -> (r: HandmadeProduct)
        ensures
            final(self)@ == old(self)@.push(r@),
            r@.id.len() == 36,
            r@.created_at == now,
            r@.updated_at == now,
            r@.name == req.name@,
            r@.description == req.description@,
            r@.long_description == req.long_description@,
            r@.price == req.price,
            r@.thumbnail_image == req.thumbnail_image@,
            r@.feature_images == req.feature_images.deep_view(),
            r@.category == req.category@,
            r@.subcategory == req.subcategory@,
            r@.specs == req.specs.deep_view(),
            r@.original_price == req.original_price,
            r@.stock == req.stock,
            r@.acquisition_date == req.acquisition_date,
            r@.is_offer == req.is_offer,
    {
        let product = HandmadeProduct {
            id: fresh_id(),
            name: req.name,
            description: req.description,
            long_description: req.long_description,
            price: req.price,
            thumbnail_image: req.thumbnail_image,
            feature_images: req.feature_images,
            category: req.category,
            subcategory: req.subcategory,
            specs: req.specs,
            original_price: req.original_price,
            stock: req.stock,
            acquisition_date: req.acquisition_date,
            is_offer: req.is_offer,
            created_at: now,
            updated_at: now,
        };
        let copy = product.clone();
        self.create_handmade(product);
        copy
    }
}

impl BuildService {
    /// Create an entity from a request: the server assigns a fresh id
    /// and both timestamps, every client field is carried over
    /// unchanged, and the entity is stored.
    pub fn create_build_from_request(&mut self, req: CreateBuildRequest, now: u64) -> (r: Build)
        ensures
            final(self)@ == old(self)@.push(r@),
            r@.id.len() == 36,
            r@.created_at == now,
            r@.updated_at == now,
            r@.name == req.name@,
            r@.description == req.description@,
            r@.long_description == req.long_description@,
            r@.price == req.price,
            r@.thumbnail_image == req.thumbnail_image@,
            r@.feature_images == req.feature_images.deep_view(),
            r@.category == req.category@,
            r@.subcategory == req.subcategory@,
            r@.specs == req.specs.deep_view(),
            r@.components == req.components.deep_view(),
            r@.original_price == req.original_price,
            r@.stock == req.stock,
            r@.acquisition_date == req.acquisition_date,
            r@.is_offer == req.is_offer,
    {
        let build = Build {
            id: fresh_id(),
            name: req.name,
            description: req.description,
            long_description: req.long_description,
            price: req.price,
            thumbnail_image: req.thumbnail_image,
            feature_images: req.feature_images,
            category: req.category,
            subcategory: req.subcategory,
            specs: req.specs,
            components: req.components,
            original_price: req.original_price,
            stock: req.stock,
            acquisition_date: req.acquisition_date,
            is_offer: req.is_offer,
            created_at: now,
            updated_at: now,
        };
        let copy = build.clone();
        self.create_build(build);
        copy
    }
}

} // verus!
