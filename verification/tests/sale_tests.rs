use cyborgtech::error::ApiError;
use cyborgtech::models::{
    CreateHandmadeProductRequest, CreateProductRequest, CreateSaleRequest, ProductType, SpecEntry,
};
use cyborgtech::money::{format_money, parse_money};
use cyborgtech::sale::SaleService;
use cyborgtech::text::MultiLanguageText;

const NOW: u64 = 1_700_000_000;

fn text(base: &str) -> MultiLanguageText {
    MultiLanguageText {
        es: format!("{base} es"),
        en: format!("{base} en"),
        fr: format!("{base} fr"),
    }
}

fn product_request(price_str: &str, stock: Option<u32>) -> CreateProductRequest {
    CreateProductRequest {
        name: text("widget"),
        description: text("a widget"),
        price: parse_money(price_str).expect("well-formed price"),
        thumbnail_image: "w.png".to_string(),
        category: "widgets".to_string(),
        subcategory: "basic".to_string(),
        original_price: None,
        feature_images: None,
        specs: Some(vec![SpecEntry { key: "colour".to_string(), value: "red".to_string() }]),
        brand: None,
        stock,
        acquisition_date: None,
        is_new: None,
        is_popular: None,
        is_offer: None,
    }
}

fn sale_request(id: &str, kind: ProductType, quantity: u32, discount: Option<u32>) -> CreateSaleRequest {
    CreateSaleRequest {
        product_id: id.to_string(),
        product_type: kind,
        quantity,
        discount,
        customer_name: "Ada".to_string(),
        customer_email: Some("ada@example.com".to_string()),
        customer_phone: None,
        payment_method: "cash".to_string(),
        notes: None,
    }
}

fn shop_with_product(price_str: &str, stock: Option<u32>) -> (SaleService, String) {
    let mut shop = SaleService::new();
    let p = shop.product_service.create_product_from_request(product_request(price_str, stock), NOW);
    (shop, p.id)
}

#[test]
fn sale_pricing_is_exact() {
    // unit_price 100.00, quantity 3, discount 10% -> 300.00, 30.00, 270.00
    let (mut shop, id) = shop_with_product("100.00", Some(10));
    let sale = shop.create_sale(sale_request(&id, ProductType::Product, 3, Some(10)), NOW).unwrap();
    assert_eq!(sale.unit_price, 10000);
    assert_eq!(sale.total_price, 30000);
    assert_eq!(sale.final_price, 27000);
    assert_eq!(format_money(sale.total_price), "300.00");
    assert_eq!(format_money(sale.final_price), "270.00");
    assert_eq!(sale.discount, Some(10));
    assert_eq!(sale.quantity, 3);
    assert_eq!(sale.product_name, "widget es");
    assert_eq!(sale.product_id, id);
    assert_eq!(sale.id.len(), 36);
    assert_eq!(sale.sale_date, NOW);
}

#[test]
fn sale_without_discount_charges_the_total() {
    let (mut shop, id) = shop_with_product("19.99", Some(5));
    let sale = shop.create_sale(sale_request(&id, ProductType::Product, 2, None), NOW).unwrap();
    assert_eq!(sale.total_price, 3998);
    assert_eq!(sale.final_price, 3998);
}

#[test]
fn discount_amount_rounds_down() {
    // 0.99 * 3 = 2.97; 10% of 297 cents is 29.7 -> 29 cents off
    let (mut shop, id) = shop_with_product("0.99", Some(5));
    let sale = shop.create_sale(sale_request(&id, ProductType::Product, 3, Some(10)), NOW).unwrap();
    assert_eq!(sale.total_price, 297);
    assert_eq!(sale.final_price, 268);
}

#[test]
fn selling_exactly_the_stock_leaves_zero() {
    let (mut shop, id) = shop_with_product("100.00", Some(3));
    let sale = shop.create_sale(sale_request(&id, ProductType::Product, 3, None), NOW);
    assert!(sale.is_ok());
    let p = shop.product_service.get_product_by_id(&id).unwrap();
    assert_eq!(p.stock, Some(0));
    assert_eq!(shop.get_all_sales().len(), 1);
}

#[test]
fn selling_more_than_stock_fails_and_changes_nothing() {
    let (mut shop, id) = shop_with_product("100.00", Some(3));
    let r = shop.create_sale(sale_request(&id, ProductType::Product, 5, None), NOW);
    assert_eq!(r.err(), Some(ApiError::InsufficientStock));
    let p = shop.product_service.get_product_by_id(&id).unwrap();
    assert_eq!(p.stock, Some(3));
    // no sale record is created for a failed sale
    assert!(shop.get_all_sales().is_empty());
}

#[test]
fn selling_without_stock_information_fails() {
    let (mut shop, id) = shop_with_product("100.00", None);
    let r = shop.create_sale(sale_request(&id, ProductType::Product, 1, None), NOW);
    assert_eq!(r.err(), Some(ApiError::MissingStockInfo));
    assert!(shop.get_all_sales().is_empty());
}

#[test]
fn unknown_references_fail_with_the_tagged_kind() {
    let mut shop = SaleService::new();
    let r = shop.create_sale(sale_request("missing", ProductType::Product, 1, None), NOW);
    assert_eq!(r.err(), Some(ApiError::NotFound(ProductType::Product)));
    let r = shop.create_sale(sale_request("missing", ProductType::Handmade, 1, None), NOW);
    assert_eq!(r.err(), Some(ApiError::NotFound(ProductType::Handmade)));
    let r = shop.create_sale(sale_request("missing", ProductType::Build, 1, None), NOW);
    assert_eq!(r.err(), Some(ApiError::NotFound(ProductType::Build)));
}

#[test]
fn zero_quantity_and_out_of_range_discounts_are_invalid() {
    let (mut shop, id) = shop_with_product("100.00", Some(3));
    let r = shop.create_sale(sale_request(&id, ProductType::Product, 0, None), NOW);
    assert_eq!(r.err(), Some(ApiError::InvalidRequest));
    let r = shop.create_sale(sale_request(&id, ProductType::Product, 1, Some(101)), NOW);
    assert_eq!(r.err(), Some(ApiError::InvalidRequest));
    // a 100% discount is allowed and makes the sale free
    let sale = shop.create_sale(sale_request(&id, ProductType::Product, 1, Some(100)), NOW).unwrap();
    assert_eq!(sale.final_price, 0);
}

#[test]
fn one_unit_of_stock_admits_exactly_one_of_many_sales() {
    let (mut shop, id) = shop_with_product("100.00", Some(1));
    let mut successes = 0;
    let mut insufficient = 0;
    for _ in 0..5 {
        match shop.create_sale(sale_request(&id, ProductType::Product, 1, None), NOW) {
            Ok(_) => successes += 1,
            Err(ApiError::InsufficientStock) => insufficient += 1,
            Err(e) => panic!("unexpected error {e:?}"),
        }
    }
    assert_eq!(successes, 1);
    assert_eq!(insufficient, 4);
    let p = shop.product_service.get_product_by_id(&id).unwrap();
    assert_eq!(p.stock, Some(0));
    assert_eq!(shop.get_all_sales().len(), 1);
}

#[test]
fn sales_resolve_against_the_requested_kind() {
    let mut shop = SaleService::new();
    let h = shop.handmade_service.create_handmade_from_request(
        CreateHandmadeProductRequest {
            name: text("bowl"),
            description: text("short"),
            long_description: text("long"),
            price: parse_money("45.50").unwrap(),
            thumbnail_image: "b.png".to_string(),
            feature_images: vec![],
            category: "pottery".to_string(),
            subcategory: "bowls".to_string(),
            specs: vec![],
            original_price: None,
            stock: Some(2),
            acquisition_date: None,
            is_offer: None,
        },
        NOW,
    );
    // the same id does not exist among manufactured products
    let r = shop.create_sale(sale_request(&h.id, ProductType::Product, 1, None), NOW);
    assert_eq!(r.err(), Some(ApiError::NotFound(ProductType::Product)));

    let sale = shop.create_sale(sale_request(&h.id, ProductType::Handmade, 2, None), NOW).unwrap();
    assert_eq!(sale.product_type, ProductType::Handmade);
    assert_eq!(sale.product_name, "bowl es");
    assert_eq!(sale.total_price, 9100);
    let after = shop.handmade_service.get_handmade_by_id(&h.id).unwrap();
    assert_eq!(after.stock, Some(0));
}

#[test]
fn recorded_sales_are_retrievable_by_id() {
    let (mut shop, id) = shop_with_product("10.00", Some(2));
    let sale = shop.create_sale(sale_request(&id, ProductType::Product, 1, None), NOW).unwrap();
    let fetched = shop.get_sale_by_id(&sale.id).expect("recorded sale is readable");
    assert_eq!(fetched, sale);
    assert_eq!(shop.get_sale_by_id("missing"), None);
}

#[test]
fn deterministic_sale_ids_are_honoured() {
    let (mut shop, id) = shop_with_product("10.00", Some(2));
    let sale = shop
        .create_sale_at(sale_request(&id, ProductType::Product, 1, None), "sale-1".to_string(), NOW)
        .unwrap();
    assert_eq!(sale.id, "sale-1");
    assert!(shop.get_sale_by_id("sale-1").is_some());
}
