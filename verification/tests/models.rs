use hylacviet::models::{
    default_category, default_images, default_limit, default_order_status, default_page,
    default_setting_type, default_status, query_offset, ApiResponse, Category, CreateCategory,
    CreateOrder, CreateProduct, Order, Product, UpdateCategory,
};
use hylacviet::storage::{make_filename, public_url, upload_response};

#[test]
fn defaults_have_their_documented_values() {
    assert!(default_images().is_empty());
    assert_eq!(default_category(), "ao-dai");
    assert_eq!(default_status(), "active");
    assert_eq!(default_order_status(), "pending");
    assert_eq!(default_setting_type(), "string");
    assert_eq!(default_page(), 1);
    assert_eq!(default_limit(), 20);
}

#[test]
fn api_response_success_and_error() {
    let r = ApiResponse::success(7u32);
    assert!(r.success);
    assert_eq!(r.data, Some(7));
    assert!(r.message.is_none());

    let e = ApiResponse::<u32>::error("boom");
    assert!(!e.success);
    assert!(e.data.is_none());
    assert_eq!(e.message.as_deref(), Some("boom"));
}

#[test]
fn product_from_create_fills_generated_fields() {
    let p = Product::from_create(
        CreateProduct {
            name: "Silk dress".to_string(),
            description: "Red".to_string(),
            price: 120,
            images: vec!["a.webp".to_string()],
            category: "ao-dai".to_string(),
            sort_order: 3,
        },
        "prod-1".to_string(),
        "2024-01-01T00:00:00Z".to_string(),
    );
    assert_eq!(p.id, "prod-1");
    assert_eq!(p.name, "Silk dress");
    assert_eq!(p.price, 120);
    assert_eq!(p.images, vec!["a.webp".to_string()]);
    assert_eq!(p.status, "active");
    assert_eq!(p.created_at, "2024-01-01T00:00:00Z");
    assert!(p.updated_at.is_none());
}

#[test]
fn order_from_create_is_pending() {
    let o = Order::from_create(
        CreateOrder {
            customer_name: "An".to_string(),
            customer_phone: "555".to_string(),
            customer_email: String::new(),
            product_id: Some("prod-1".to_string()),
            product_name: String::new(),
            measurements: "M".to_string(),
            notes: String::new(),
        },
        "Silk dress".to_string(),
        "ord-1".to_string(),
        "2024-01-02T00:00:00Z".to_string(),
    );
    assert_eq!(o.id, "ord-1");
    assert_eq!(o.product_name, "Silk dress");
    assert_eq!(o.status, "pending");
    assert!(o.updated_at.is_none());
}

#[test]
fn category_update_merges_present_fields_only() {
    let c = Category::from_create(
        CreateCategory {
            name: "Dresses".to_string(),
            slug: "dresses".to_string(),
            icon: String::new(),
            image: String::new(),
            description: "old".to_string(),
            sort_order: 1,
        },
        "cat-1".to_string(),
        "2024-01-01T00:00:00Z".to_string(),
    );
    let u = UpdateCategory {
        name: Some("Gowns".to_string()),
        slug: None,
        icon: None,
        image: Some("g.webp".to_string()),
        description: None,
        sort_order: Some(9),
    };
    let merged = c.apply_update(u, "2024-02-01T00:00:00Z".to_string());
    assert_eq!(merged.id, "cat-1");
    assert_eq!(merged.name, "Gowns");
    assert_eq!(merged.slug, "dresses");
    assert_eq!(merged.image, "g.webp");
    assert_eq!(merged.description, "old");
    assert_eq!(merged.sort_order, 9);
    assert_eq!(merged.created_at, "2024-01-01T00:00:00Z");
    assert_eq!(merged.updated_at.as_deref(), Some("2024-02-01T00:00:00Z"));
}

#[test]
fn query_offset_is_page_times_limit() {
    assert_eq!(query_offset(1, 20), 0);
    assert_eq!(query_offset(3, 20), 40);
    assert_eq!(query_offset(2, 7), 7);
}

#[test]
fn storage_naming_is_deterministic_in_the_token() {
    assert_eq!(make_filename("tok", "webp"), "tok.webp");
    assert_eq!(public_url("tok.webp"), "/uploads/tok.webp");
    let r = upload_response("tok.svg".to_string());
    assert_eq!(r.filename, "tok.svg");
    assert_eq!(r.url, "/uploads/tok.svg");
}
