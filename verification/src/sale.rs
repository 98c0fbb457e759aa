//! The sale workflow: resolve a polymorphic product reference, price the
//! sale, record it and decrement the referenced entity's stock — all
//! under one exclusive borrow of the store, so the stock check and the
//! decrement cannot interleave with a concurrent sale.

use vstd::prelude::*;

use crate::catalog::{
    build_has_id, build_with_stock, find_first, find_idx, handmade_has_id, handmade_with_stock,
    lemma_find_idx_works, product_has_id, product_with_stock, BuildService, HandmadeService,
    ProductService,
};
use crate::error::ApiError;
use crate::ids::fresh_id;
use crate::models::{
    BuildV, CreateSaleRequest, CreateSaleRequestV, HandmadeProductV, ProductType, ProductV, Sale,
    SaleV,
};
use crate::strutil::str_eq;

verus! {

/// The discount percentage of a request, defaulting to zero.
pub open spec fn discount_of(req: CreateSaleRequestV) -> u32 {
    match req.discount {
        Some(d) => d,
        None => 0,
    }
}

/// Total price in cents: unit price times quantity.
pub open spec fn total_cents(unit: u64, qty: u32) -> int {
    unit * qty
}

/// Discount amount in cents: the given percentage of the total, rounded
/// down.
pub open spec fn discount_cents(total: int, percent: u32) -> int {
    total * percent / 100
}

/// Final price in cents: the total less the discount amount.
pub open spec fn final_cents(unit: u64, qty: u32, percent: u32) -> int {
    total_cents(unit, qty) - discount_cents(total_cents(unit, qty), percent)
}

/// The pricing identity: the final price is exactly the total minus the
/// percentage discount on that total, for every nonnegative combination.
pub proof fn lemma_pricing(unit: u64, qty: u32, percent: u32)
    ensures
        final_cents(unit, qty, percent) == total_cents(unit, qty) - discount_cents(
            total_cents(unit, qty),
            percent,
        ),
        percent <= 100 ==> 0 <= final_cents(unit, qty, percent) <= total_cents(unit, qty),
{
    let t = total_cents(unit, qty);
    assert(t >= 0) by (nonlinear_arith)
        requires t == unit * qty;
    assert(percent <= 100 ==> 0 <= t * percent / 100 <= t) by (nonlinear_arith)
        requires t >= 0;
}

/// What the sale resolves against: the entity's Spanish display name,
/// its unit price, and its stock, looked up in the repository that the
/// request's kind selects.
pub open spec fn resolve_target(s: SaleServiceV, kind: ProductType, id: Seq<char>) -> Option<
    (Seq<char>, u64, Option<u32>),
> {
    match kind {
        ProductType::Product => match find_first(s.products, product_has_id(id)) {
            None => None,
            Some(p) => Some((p.name.es, p.price, p.stock)),
        },
        ProductType::Handmade => match find_first(s.handmade, handmade_has_id(id)) {
            None => None,
            Some(p) => Some((p.name.es, p.price, p.stock)),
        },
        ProductType::Build => match find_first(s.builds, build_has_id(id)) {
            None => None,
            Some(p) => Some((p.name.es, p.price, p.stock)),
        },
    }
}

/// The sale record that a successful request produces.
pub open spec fn sale_record(
    req: CreateSaleRequestV,
    name: Seq<char>,
    unit: u64,
    sale_id: Seq<char>,
    now: u64,
) -> SaleV {
    SaleV {
        id: sale_id,
        product_id: req.product_id,
        product_type: req.product_type,
        product_name: name,
        quantity: req.quantity,
        unit_price: unit,
        total_price: total_cents(unit, req.quantity) as u64,
        discount: req.discount,
        final_price: final_cents(unit, req.quantity, discount_of(req)) as u64,
        customer_name: req.customer_name,
        customer_email: req.customer_email,
        customer_phone: req.customer_phone,
        payment_method: req.payment_method,
        notes: req.notes,
        sale_date: now,
        created_at: now,
    }
}

/// The exact outcome of a sale request against a store state: the
/// recorded sale on success, and the first failure otherwise — a zero
/// quantity, an out-of-range discount or an overflowing total are
/// `InvalidRequest`; an unknown reference is `NotFound` tagged with the
/// kind; an entity without stock information is `MissingStockInfo`; and
/// too little stock is `InsufficientStock`.
pub open spec fn sale_outcome(
    s: SaleServiceV,
    req: CreateSaleRequestV,
    sale_id: Seq<char>,
    now: u64,
) -> Result<SaleV, ApiError> {
    if req.quantity == 0 || discount_of(req) > 100 {
        Err(ApiError::InvalidRequest)
    } else {
        match resolve_target(s, req.product_type, req.product_id) {
            None => Err(ApiError::NotFound(req.product_type)),
            Some(t) => {
                if total_cents(t.1, req.quantity) > u64::MAX {
                    Err(ApiError::InvalidRequest)
                } else {
                    match t.2 {
                        None => Err(ApiError::MissingStockInfo),
                        Some(st) => if st < req.quantity {
                            Err(ApiError::InsufficientStock)
                        } else {
                            Ok(sale_record(req, t.0, t.1, sale_id, now))
                        },
                    }
                }
            },
        }
    }
}

/// The store with the referenced entity's stock decremented by `qty`.
pub open spec fn stock_decremented(
    s: SaleServiceV,
    kind: ProductType,
    id: Seq<char>,
    qty: u32,
) -> SaleServiceV {
    match kind {
        ProductType::Product => {
            let i = find_idx(s.products, product_has_id(id));
            let p = s.products[i];
            SaleServiceV {
                products: s.products.update(
                    i,
                    product_with_stock(p, Some((p.stock->Some_0 - qty) as u32)),
                ),
                ..s
            }
        },
        ProductType::Handmade => {
            let i = find_idx(s.handmade, handmade_has_id(id));
            let p = s.handmade[i];
            SaleServiceV {
                handmade: s.handmade.update(
                    i,
                    handmade_with_stock(p, Some((p.stock->Some_0 - qty) as u32)),
                ),
                ..s
            }
        },
        ProductType::Build => {
            let i = find_idx(s.builds, build_has_id(id));
            let p = s.builds[i];
            SaleServiceV {
                builds: s.builds.update(
                    i,
                    build_with_stock(p, Some((p.stock->Some_0 - qty) as u32)),
                ),
                ..s
            }
        },
    }
}

/// The store state after a sale request: unchanged on any failure; on
/// success the referenced entity's stock is decremented and the sale is
/// appended to the log.
pub open spec fn sale_next(
    s: SaleServiceV,
    req: CreateSaleRequestV,
    sale_id: Seq<char>,
    now: u64,
) -> SaleServiceV {
    match sale_outcome(s, req, sale_id, now) {
        Err(_) => s,
        Ok(sale) => {
            let s1 = stock_decremented(s, req.product_type, req.product_id, req.quantity);
            SaleServiceV { sales: s1.sales.push(sale), ..s1 }
        },
    }
}

/// Whether a sale record carries this id.
pub open spec fn sale_has_id(id: Seq<char>) -> spec_fn(SaleV) -> bool {
    |x: SaleV| x.id == id
}

/// The sale workflow's store: the three catalog repositories it resolves
/// against and mutates, and the log of recorded sales.
pub struct SaleService {
    pub product_service: ProductService,
    pub handmade_service: HandmadeService,
    pub build_service: BuildService,
    pub sales: Vec<Sale>,
}

pub struct SaleServiceV {
    pub products: Seq<ProductV>,
    pub handmade: Seq<HandmadeProductV>,
    pub builds: Seq<BuildV>,
    pub sales: Seq<SaleV>,
}

impl View for SaleService {
    type V = SaleServiceV;

    open spec fn view(&self) -> SaleServiceV {
        SaleServiceV {
            products: self.product_service@,
            handmade: self.handmade_service@,
            builds: self.build_service@,
            sales: self.sales.deep_view(),
        }
    }
}

impl SaleService {
    /// A workflow over empty repositories and an empty sale log.
    pub fn new() -> (r: Self)
        ensures
            r@.products == Seq::<ProductV>::empty(),
            r@.handmade == Seq::<HandmadeProductV>::empty(),
            r@.builds == Seq::<BuildV>::empty(),
            r@.sales == Seq::<SaleV>::empty(),
    {
        let r = SaleService {
            product_service: ProductService::new(),
            handmade_service: HandmadeService::new(),
            build_service: BuildService::new(),
            sales: Vec::new(),
        };
        assert(r@.sales =~= Seq::<SaleV>::empty());
        r
    }

    /// All recorded sales, in order.
    pub fn get_all_sales(&self) -> (r: Vec<Sale>)
        ensures
            r.deep_view() == self@.sales,
    {
        let mut out: Vec<Sale> = Vec::new();
        let mut i: usize = 0;
        while i < self.sales.len()
            invariant
                i <= self.sales.len(),
                out.deep_view().len() == i,
                forall|j: int| 0 <= j < i ==> out.deep_view()[j] == self@.sales[j],
            decreases self.sales.len() - i,
        {
            let ghost pre = out.deep_view();
            out.push(self.sales[i].clone());
            assert(out.deep_view() =~= pre.push(self.sales@[i as int].deep_view()));
            i = i + 1;
        }
        assert(out.deep_view() =~= self@.sales);
        out
    }

    /// The sale with this id, if present (first match).
    pub fn get_sale_by_id(&self, id: &str) -> (r: Option<Sale>)
        ensures
            r.deep_view() == find_first(self@.sales, sale_has_id(id@)),
    {
        let ghost p = sale_has_id(id@);
        let mut i: usize = 0;
        while i < self.sales.len()
            invariant
                i <= self.sales.len(),
                forall|j: int| 0 <= j < i ==> !p(#[trigger] self@.sales[j]),
                p == sale_has_id(id@),
            decreases self.sales.len() - i,
        {
            if str_eq(self.sales[i].id.as_str(), id) {
                proof {
                    crate::catalog::lemma_find_idx_here(self@.sales, p, i as int);
                }
                return Some(self.sales[i].clone());
            }
            i = i + 1;
        }
        proof {
            crate::catalog::lemma_find_idx_none(self@.sales, p);
        }
        None
    }

    /// Record a sale under a caller-chosen sale id at time `now`. The
    /// result is exactly `sale_outcome` and the new state exactly
    /// `sale_next`: on any failure the store is untouched, and on
    /// success the stock decrement and the sale record are one atomic
    /// step.
    pub fn create_sale_at(&mut self, req: CreateSaleRequest, sale_id: String, now: u64) -> (r:
        Result<Sale, ApiError>)
        ensures
            r matches Ok(sale) ==> sale_outcome(old(self)@, req@, sale_id@, now) == Ok::<
                SaleV,
                ApiError,
            >(sale@),
            r matches Err(e) ==> sale_outcome(old(self)@, req@, sale_id@, now) == Err::<
                SaleV,
                ApiError,
            >(e),
            final(self)@ == sale_next(old(self)@, req@, sale_id@, now),
    {
        if req.quantity == 0 {
            return Err(ApiError::InvalidRequest);
        }
        if let Some(d) = req.discount {
            if d > 100 {
                return Err(ApiError::InvalidRequest);
            }
        }
        let (product_name, unit_price): (String, u64) = match req.product_type {
            ProductType::Product => {
                match self.product_service.get_product_by_id(req.product_id.as_str()) {
                    Some(item) => (item.name.es, item.price),
                    None => {
                        return Err(ApiError::NotFound(ProductType::Product));
                    },
                }
            },
            ProductType::Handmade => {
                match self.handmade_service.get_handmade_by_id(req.product_id.as_str()) {
                    Some(item) => (item.name.es, item.price),
                    None => {
                        return Err(ApiError::NotFound(ProductType::Handmade));
                    },
                }
            },
            ProductType::Build => {
                match self.build_service.get_build_by_id(req.product_id.as_str()) {
                    Some(item) => (item.name.es, item.price),
                    None => {
                        return Err(ApiError::NotFound(ProductType::Build));
                    },
                }
            },
        };
        proof {
            assert((unit_price as u128) * (req.quantity as u128) < u128::MAX) by (nonlinear_arith)
                requires
                    unit_price <= u64::MAX,
                    req.quantity <= u32::MAX,
            ;
        }
        let total128: u128 = (unit_price as u128) * (req.quantity as u128);
        if total128 > u64::MAX as u128 {
            return Err(ApiError::InvalidRequest);
        }
        let total: u64 = total128 as u64;
        let percent: u32 = match req.discount {
            Some(d) => d,
            None => 0,
        };
        proof {
            assert((total as u128) * (percent as u128) < u128::MAX) by (nonlinear_arith)
                requires
                    total <= u64::MAX,
                    percent <= 100,
            ;
            assert((total as u128) * (percent as u128) / 100 <= total as u128) by (nonlinear_arith)
                requires
                    percent <= 100,
            ;
        }
        let discount_amount: u64 = ((total as u128) * (percent as u128) / 100) as u64;
        let final_price: u64 = total - discount_amount;
        match req.product_type {
            ProductType::Product => {
                match self.product_service.decrement_stock(req.product_id.as_str(), req.quantity) {
                    Ok(_) => {},
                    Err(e) => {
                        return Err(e);
                    },
                }
            },
            ProductType::Handmade => {
                match self.handmade_service.decrement_stock(req.product_id.as_str(), req.quantity) {
                    Ok(_) => {},
                    Err(e) => {
                        return Err(e);
                    },
                }
            },
            ProductType::Build => {
                match self.build_service.decrement_stock(req.product_id.as_str(), req.quantity) {
                    Ok(_) => {},
                    Err(e) => {
                        return Err(e);
                    },
                }
            },
        }
        let sale = Sale {
            id: sale_id,
            product_id: req.product_id,
            product_type: req.product_type,
            product_name,
            quantity: req.quantity,
            unit_price,
            total_price: total,
            discount: req.discount,
            final_price,
            customer_name: req.customer_name,
            customer_email: req.customer_email,
            customer_phone: req.customer_phone,
            payment_method: req.payment_method,
            notes: req.notes,
            sale_date: now,
            created_at: now,
        };
        let copy = sale.clone();
        let ghost sv = sale@;
        self.sales.push(sale);
        assert(self@.sales =~= old(self)@.sales.push(sv));
        Ok(copy)
    }

    /// Record a sale under a fresh sale id at time `now`. On success the
    /// result and new state are exactly those of `sale_outcome` and
    /// `sale_next` for the returned sale's id; every failure leaves the
    /// store untouched and would occur under any sale id.
    pub fn create_sale(&mut self, req: CreateSaleRequest, now: u64) -> (r: Result<Sale, ApiError>)
        ensures
            r matches Ok(sale) ==> sale_outcome(old(self)@, req@, sale@.id, now) == Ok::<
                SaleV,
                ApiError,
            >(sale@) && final(self)@ == sale_next(old(self)@, req@, sale@.id, now)
                && sale@.id.len() == 36,
            r matches Err(e) ==> final(self)@ == old(self)@ && forall|sid: Seq<char>|
                sale_outcome(old(self)@, req@, sid, now) == Err::<SaleV, ApiError>(e),
    {
        let sid = fresh_id();
        let ghost sidv = sid@;
        let r = self.create_sale_at(req, sid, now);
        proof {
            if r is Err {
                let e = r->Err_0;
                assert forall|sid2: Seq<char>|
                    sale_outcome(old(self)@, req@, sid2, now) == Err::<SaleV, ApiError>(e) by {
                    assert(sale_outcome(old(self)@, req@, sidv, now) == Err::<SaleV, ApiError>(e));
                }
            }
        }
        r
    }
}

/// A failed sale request leaves the store exactly as it was.
pub proof fn lemma_failed_sale_preserves_state(
    s: SaleServiceV,
    req: CreateSaleRequestV,
    sale_id: Seq<char>,
    now: u64,
)
    requires
        sale_outcome(s, req, sale_id, now) is Err,
    ensures
        sale_next(s, req, sale_id, now) == s,
{
}

/// A request for one unit of the entity `id` of kind `kind`, with a
/// discount in range.
pub open spec fn unit_request_for(req: CreateSaleRequestV, kind: ProductType, id: Seq<char>) -> bool {
    &&& req.product_type == kind
    &&& req.product_id == id
    &&& req.quantity == 1
    &&& discount_of(req) <= 100
}

/// The store after serializing a batch of sale requests, one at a time.
pub open spec fn run_sales(
    s: SaleServiceV,
    reqs: Seq<CreateSaleRequestV>,
    sids: Seq<Seq<char>>,
    now: u64,
) -> SaleServiceV
    decreases reqs.len(),
{
    if reqs.len() == 0 {
        s
    } else {
        run_sales(sale_next(s, reqs[0], sids[0], now), reqs.drop_first(), sids.drop_first(), now)
    }
}

/// How many of a serialized batch of sale requests succeed.
pub open spec fn count_successes(
    s: SaleServiceV,
    reqs: Seq<CreateSaleRequestV>,
    sids: Seq<Seq<char>>,
    now: u64,
) -> nat
    decreases reqs.len(),
{
    if reqs.len() == 0 {
        0
    } else {
        (if sale_outcome(s, reqs[0], sids[0], now) is Ok {
            1nat
        } else {
            0nat
        }) + count_successes(
            sale_next(s, reqs[0], sids[0], now),
            reqs.drop_first(),
            sids.drop_first(),
            now,
        )
    }
}

/// Against an entity whose stock is exhausted, every unit request fails
/// with `InsufficientStock` and the store never changes.
pub proof fn lemma_no_stock_no_sales(
    s: SaleServiceV,
    reqs: Seq<CreateSaleRequestV>,
    sids: Seq<Seq<char>>,
    now: u64,
    kind: ProductType,
    id: Seq<char>,
)
    requires
        sids.len() == reqs.len(),
        forall|i: int| 0 <= i < reqs.len() ==> unit_request_for(#[trigger] reqs[i], kind, id),
        ({
            let t = resolve_target(s, kind, id);
            t matches Some(x) && x.2 == Some(0u32)
        }),
    ensures
        count_successes(s, reqs, sids, now) == 0,
        run_sales(s, reqs, sids, now) == s,
    decreases reqs.len(),
{
    if reqs.len() > 0 {
        assert(unit_request_for(reqs[0], kind, id));
        assert(sale_outcome(s, reqs[0], sids[0], now) == Err::<SaleV, ApiError>(
            ApiError::InsufficientStock,
        ));
        assert(sale_next(s, reqs[0], sids[0], now) == s);
        lemma_no_stock_no_sales(s, reqs.drop_first(), sids.drop_first(), now, kind, id);
    }
}

/// The critical concurrency property, over any number of requests: when
/// an entity has exactly one unit of stock, serializing any nonempty
/// batch of unit sale requests for it yields exactly one success — the
/// first — and every other request fails, leaving the final stock
/// exhausted.
pub proof fn lemma_one_unit_one_sale(
    s: SaleServiceV,
    reqs: Seq<CreateSaleRequestV>,
    sids: Seq<Seq<char>>,
    now: u64,
    kind: ProductType,
    id: Seq<char>,
)
    requires
        reqs.len() >= 1,
        sids.len() == reqs.len(),
        forall|i: int| 0 <= i < reqs.len() ==> unit_request_for(#[trigger] reqs[i], kind, id),
        ({
            let t = resolve_target(s, kind, id);
            t matches Some(x) && x.2 == Some(1u32)
        }),
    ensures
        count_successes(s, reqs, sids, now) == 1,
        ({
            let t = resolve_target(run_sales(s, reqs, sids, now), kind, id);
            t matches Some(x) && x.2 == Some(0u32)
        }),
{
    assert(unit_request_for(reqs[0], kind, id));
    let unit = resolve_target(s, kind, id)->Some_0.1;
    assert(total_cents(unit, 1u32) == unit) by (nonlinear_arith);
    assert(sale_outcome(s, reqs[0], sids[0], now) is Ok);
    let s2 = sale_next(s, reqs[0], sids[0], now);
    lemma_stock_goes_to_zero(s, reqs[0], sids[0], now, kind, id);
    lemma_no_stock_no_sales(s2, reqs.drop_first(), sids.drop_first(), now, kind, id);
}

/// After a successful unit sale of the last unit, the entity resolves
/// with zero stock.
proof fn lemma_stock_goes_to_zero(
    s: SaleServiceV,
    req: CreateSaleRequestV,
    sid: Seq<char>,
    now: u64,
    kind: ProductType,
    id: Seq<char>,
)
    requires
        unit_request_for(req, kind, id),
        sale_outcome(s, req, sid, now) is Ok,
        ({
            let t = resolve_target(s, kind, id);
            t matches Some(x) && x.2 == Some(1u32)
        }),
    ensures
        ({
            let t = resolve_target(sale_next(s, req, sid, now), kind, id);
            t matches Some(x) && x.2 == Some(0u32)
        }),
{
    let s2 = sale_next(s, req, sid, now);
    match kind {
        ProductType::Product => {
            let p = product_has_id(id);
            lemma_find_idx_works(s.products, p);
            let i = find_idx(s.products, p);
            let item = s.products[i];
            let updated = product_with_stock(item, Some(0u32));
            crate::catalog::lemma_find_update_here(s.products, p, updated);
            assert(s2.products == s.products.update(i, updated));
        },
        ProductType::Handmade => {
            let p = handmade_has_id(id);
            lemma_find_idx_works(s.handmade, p);
            let i = find_idx(s.handmade, p);
            let item = s.handmade[i];
            let updated = handmade_with_stock(item, Some(0u32));
            crate::catalog::lemma_find_update_here(s.handmade, p, updated);
            assert(s2.handmade == s.handmade.update(i, updated));
        },
        ProductType::Build => {
            let p = build_has_id(id);
            lemma_find_idx_works(s.builds, p);
            let i = find_idx(s.builds, p);
            let item = s.builds[i];
            let updated = build_with_stock(item, Some(0u32));
            crate::catalog::lemma_find_update_here(s.builds, p, updated);
            assert(s2.builds == s.builds.update(i, updated));
        },
    }
}

} // verus!
