use cyborgtech::catalog::{BuildService, HandmadeService, ProductService};
use cyborgtech::error::ApiError;
use cyborgtech::models::{
    BuildComponent, CreateBuildRequest, CreateHandmadeProductRequest, CreateProductRequest,
    ProductType, SpecEntry,
};
use cyborgtech::text::MultiLanguageText;

fn text(base: &str) -> MultiLanguageText {
    MultiLanguageText {
        es: format!("{base} es"),
        en: format!("{base} en"),
        fr: format!("{base} fr"),
    }
}

fn product_request(category: &str, price: u64, stock: Option<u32>) -> CreateProductRequest {
    CreateProductRequest {
        name: text("name"),
        description: text("description"),
        price,
        thumbnail_image: "thumb.png".to_string(),
        category: category.to_string(),
        subcategory: "sub".to_string(),
        original_price: Some(price + 100),
        feature_images: Some(vec!["a.png".to_string(), "b.png".to_string()]),
        specs: Some(vec![SpecEntry { key: "cpu".to_string(), value: "fast".to_string() }]),
        brand: Some("brand".to_string()),
        stock,
        acquisition_date: Some(1_700_000_000),
        is_new: Some(true),
        is_popular: None,
        is_offer: Some(false),
    }
}

#[test]
fn get_text_selects_language_with_english_fallback() {
    let t = text("hello");
    assert_eq!(t.get_text("es"), "hello es");
    assert_eq!(t.get_text("en"), "hello en");
    assert_eq!(t.get_text("fr"), "hello fr");
    assert_eq!(t.get_text("de"), "hello en");
    assert_eq!(t.get_text(""), "hello en");
}

#[test]
fn create_then_get_round_trips_all_fields() {
    let mut svc = ProductService::new();
    let req = product_request("laptops", 10000, Some(3));
    let created = svc.create_product_from_request(req, 1_700_000_123);

    // server-assigned fields are present and well formed
    assert_eq!(created.id.len(), 36);
    assert_eq!(created.created_at, 1_700_000_123);
    assert_eq!(created.updated_at, 1_700_000_123);

    // client fields carried over unchanged
    assert_eq!(created.name, text("name"));
    assert_eq!(created.price, 10000);
    assert_eq!(created.category, "laptops");
    assert_eq!(created.stock, Some(3));

    let fetched = svc.get_product_by_id(&created.id).expect("created entity must be readable");
    assert_eq!(fetched, created);
}

#[test]
fn get_by_id_misses_absent_ids() {
    let mut svc = ProductService::new();
    svc.create_product_from_request(product_request("laptops", 100, None), 7);
    assert_eq!(svc.get_product_by_id("no-such-id"), None);
}

#[test]
fn category_filter_returns_exactly_the_matching_subset() {
    let mut svc = ProductService::new();
    let a = svc.create_product_from_request(product_request("laptops", 100, None), 1);
    let b = svc.create_product_from_request(product_request("phones", 200, None), 2);
    let c = svc.create_product_from_request(product_request("laptops", 300, None), 3);

    let all = svc.get_all_products();
    assert_eq!(all.len(), 3);

    let laptops = svc.get_products_by_category("laptops");
    assert_eq!(laptops.len(), 2);
    assert_eq!(laptops[0].id, a.id);
    assert_eq!(laptops[1].id, c.id);

    let phones = svc.get_products_by_category("phones");
    assert_eq!(phones.len(), 1);
    assert_eq!(phones[0].id, b.id);

    // a category with zero matches yields an empty list, not an error
    let none = svc.get_products_by_category("desks");
    assert!(none.is_empty());
}

#[test]
fn update_replaces_all_fields_and_misses_absent_ids() {
    let mut svc = ProductService::new();
    let created = svc.create_product_from_request(product_request("laptops", 100, Some(1)), 1);

    let mut replacement = svc.get_product_by_id(&created.id).unwrap();
    replacement.price = 555;
    replacement.category = "phones".to_string();
    assert_eq!(svc.update_product(&created.id, replacement), Ok(()));

    let fetched = svc.get_product_by_id(&created.id).unwrap();
    assert_eq!(fetched.price, 555);
    assert_eq!(fetched.category, "phones");

    let other = svc.get_product_by_id(&created.id).unwrap();
    assert_eq!(
        svc.update_product("missing-id", other),
        Err(ApiError::NotFound(ProductType::Product))
    );
}

#[test]
fn delete_removes_and_is_a_successful_no_op_on_absent_ids() {
    let mut svc = ProductService::new();
    let created = svc.create_product_from_request(product_request("laptops", 100, None), 1);
    // deleting an id that is not present succeeds without touching the store
    assert_eq!(svc.delete_product("missing-id"), Ok(()));
    assert_eq!(svc.get_all_products().len(), 1);
    assert_eq!(svc.delete_product(&created.id), Ok(()));
    assert_eq!(svc.get_product_by_id(&created.id), None);
    assert_eq!(svc.delete_product(&created.id), Ok(()));
    assert!(svc.get_all_products().is_empty());
}

#[test]
fn seed_replaces_the_whole_collection() {
    let mut svc = ProductService::new();
    svc.create_product_from_request(product_request("laptops", 100, None), 1);

    let mut fresh = ProductService::new();
    let seeded = fresh.create_product_from_request(product_request("phones", 42, None), 2);
    svc.seed_products(fresh.get_all_products());

    let all = svc.get_all_products();
    assert_eq!(all.len(), 1);
    assert_eq!(all[0].id, seeded.id);
    assert_eq!(all[0].category, "phones");
}

#[test]
fn handmade_repository_round_trips() {
    let mut svc = HandmadeService::new();
    let req = CreateHandmadeProductRequest {
        name: text("vase"),
        description: text("short"),
        long_description: text("long"),
        price: 2500,
        thumbnail_image: "vase.png".to_string(),
        feature_images: vec!["v1.png".to_string()],
        category: "pottery".to_string(),
        subcategory: "vases".to_string(),
        specs: vec![SpecEntry { key: "clay".to_string(), value: "red".to_string() }],
        original_price: None,
        stock: Some(2),
        acquisition_date: None,
        is_offer: None,
    };
    let created = svc.create_handmade_from_request(req, 99);
    assert_eq!(created.id.len(), 36);
    let fetched = svc.get_handmade_by_id(&created.id).unwrap();
    assert_eq!(fetched, created);
    assert_eq!(svc.get_handmade_by_category("pottery").len(), 1);
    assert_eq!(svc.get_handmade_by_category("other").len(), 0);
}

#[test]
fn build_repository_round_trips() {
    let mut svc = BuildService::new();
    let req = CreateBuildRequest {
        name: text("gaming rig"),
        description: text("short"),
        long_description: text("long"),
        price: 150000,
        thumbnail_image: "rig.png".to_string(),
        feature_images: vec![],
        category: "gaming".to_string(),
        subcategory: "high-end".to_string(),
        specs: vec![],
        components: vec![BuildComponent {
            product_id: "some-product".to_string(),
            quantity: 2,
            notes: Some("dual".to_string()),
        }],
        original_price: Some(180000),
        stock: Some(1),
        acquisition_date: None,
        is_offer: Some(true),
    };
    let created = svc.create_build_from_request(req, 42);
    let fetched = svc.get_build_by_id(&created.id).unwrap();
    assert_eq!(fetched, created);
    assert_eq!(fetched.components.len(), 1);
    assert_eq!(fetched.components[0].quantity, 2);
}

#[test]
fn first_match_wins_on_duplicate_ids() {
    let mut svc = ProductService::new();
    let a = svc.create_product_from_request(product_request("laptops", 100, None), 1);
    let mut dup = svc.get_product_by_id(&a.id).unwrap();
    dup.price = 999;
    svc.create_product(dup);
    let fetched = svc.get_product_by_id(&a.id).unwrap();
    assert_eq!(fetched.price, 100);
}
