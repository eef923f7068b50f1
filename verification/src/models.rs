//! Data model of the catalog service: products, categories, orders,
//! settings, admin users, and the generic API response envelope.

use vstd::prelude::*;

verus! {

/// A product of the catalog.
pub struct Product {
    pub id: String,
    pub name: String,
    pub description: String,
    pub price: i64,
    pub images: Vec<String>,
    pub category: String,
    pub status: String,
    pub sort_order: i32,
    pub created_at: String,
    pub updated_at: Option<String>,
}

/// Payload for creating a product.
pub struct CreateProduct {
    pub name: String,
    pub description: String,
    pub price: i64,
    pub images: Vec<String>,
    pub category: String,
    pub sort_order: i32,
}

/// Payload for updating a product; absent fields keep their stored value.
pub struct UpdateProduct {
    pub name: Option<String>,
    pub description: Option<String>,
    pub price: Option<i64>,
    pub images: Option<Vec<String>>,
    pub category: Option<String>,
    pub status: Option<String>,
    pub sort_order: Option<i32>,
}

/// A customer order.
pub struct Order {
    pub id: String,
    pub customer_name: String,
    pub customer_phone: String,
    pub customer_email: String,
    pub product_id: Option<String>,
    pub product_name: String,
    pub measurements: String,
    pub notes: String,
    pub status: String,
    pub created_at: String,
    pub updated_at: Option<String>,
}

/// Payload for creating an order.
pub struct CreateOrder {
    pub customer_name: String,
    pub customer_phone: String,
    pub customer_email: String,
    pub product_id: Option<String>,
    pub product_name: String,
    pub measurements: String,
    pub notes: String,
}

/// Payload for updating an order; absent fields keep their stored value.
pub struct UpdateOrder {
    pub customer_name: Option<String>,
    pub customer_phone: Option<String>,
    pub customer_email: Option<String>,
    pub product_id: Option<String>,
    pub product_name: Option<String>,
    pub measurements: Option<String>,
    pub notes: Option<String>,
    pub status: Option<String>,
}

/// A key-value setting with a type tag.
pub struct Setting {
    pub key: String,
    pub value: String,
    pub setting_type: String,
    pub updated_at: String,
}

/// A catalog category.
pub struct Category {
    pub id: String,
    pub name: String,
    pub slug: String,
    pub icon: String,
    pub image: String,
    pub description: String,
    pub sort_order: i32,
    pub created_at: String,
    pub updated_at: Option<String>,
}

/// Payload for creating a category.
pub struct CreateCategory {
    pub name: String,
    pub slug: String,
    pub icon: String,
    pub image: String,
    pub description: String,
    pub sort_order: i32,
}

/// Payload for updating a category; absent fields keep their stored value.
pub struct UpdateCategory {
    pub name: Option<String>,
    pub slug: Option<String>,
    pub icon: Option<String>,
    pub image: Option<String>,
    pub description: Option<String>,
    pub sort_order: Option<i32>,
}

/// Payload for updating several settings at once.
pub struct UpdateSettings {
    pub settings: Vec<SettingUpdate>,
}

/// One key-value pair of a settings update.
pub struct SettingUpdate {
    pub key: String,
    pub value: String,
}

/// An administrator account.
pub struct AdminUser {
    pub id: String,
    pub username: String,
    pub password_hash: String,
    pub role: String,
    pub last_login: Option<String>,
    pub created_at: String,
}

/// Credentials presented at login.
pub struct LoginRequest {
    pub username: String,
    pub password: String,
}

/// What a successful login returns: a bearer token and the public view of
/// the account.
pub struct LoginResponse {
    pub token: String,
    pub user: AdminUserPublic,
}

/// The public view of an administrator account.
pub struct AdminUserPublic {
    pub id: String,
    pub username: String,
    pub role: String,
}

/// The claims carried by an authentication token.
pub struct Claims {
    pub sub: String,
    pub username: String,
    pub role: String,
    pub exp: usize,
    pub iat: usize,
}

/// Aggregate numbers for the dashboard.
pub struct DashboardStats {
    pub total_products: i64,
    pub active_products: i64,
    pub total_orders: i64,
    pub pending_orders: i64,
    pub recent_orders: Vec<Order>,
}

/// Query parameters of a paginated listing.
pub struct PaginationParams {
    pub page: u32,
    pub limit: u32,
    pub status: Option<String>,
    pub category: Option<String>,
}

/// One page of a listing, with the paging numbers echoed back.
pub struct PaginatedResponse<T> {
    pub items: Vec<T>,
    pub total: i64,
    pub page: u32,
    pub limit: u32,
    pub total_pages: u32,
}

impl Product {
    /// Build the stored product for a creation payload: a fresh id, the
    /// `active` status, the creation timestamp, and no update timestamp.
    pub fn from_create(payload: CreateProduct, id: String, created_at: String) -> (r: Product)
        ensures
            r.id == id,
            r.name == payload.name,
            r.description == payload.description,
            r.price == payload.price,
            r.images == payload.images,
            r.category == payload.category,
            r.status@ == "active"@,
            r.sort_order == payload.sort_order,
            r.created_at == created_at,
            r.updated_at is None,
    {
        Product {
            id,
            name: payload.name,
            description: payload.description,
            price: payload.price,
            images: payload.images,
            category: payload.category,
            status: "active".to_owned(),
            sort_order: payload.sort_order,
            created_at,
            updated_at: None,
        }
    }
}

impl Order {
    /// Build the stored order for a creation payload: a fresh id, the
    /// resolved product name, the `pending` status, and the creation
    /// timestamp.
    pub fn from_create(
        payload: CreateOrder,
        product_name: String,
        id: String,
        created_at: String,
    ) -> (r: Order)
        ensures
            r.id == id,
            r.customer_name == payload.customer_name,
            r.customer_phone == payload.customer_phone,
            r.customer_email == payload.customer_email,
            r.product_id == payload.product_id,
            r.product_name == product_name,
            r.measurements == payload.measurements,
            r.notes == payload.notes,
            r.status@ == "pending"@,
            r.created_at == created_at,
            r.updated_at is None,
    {
        Order {
            id,
            customer_name: payload.customer_name,
            customer_phone: payload.customer_phone,
            customer_email: payload.customer_email,
            product_id: payload.product_id,
            product_name,
            measurements: payload.measurements,
            notes: payload.notes,
            status: "pending".to_owned(),
            created_at,
            updated_at: None,
        }
    }
}

impl Category {
    /// Build the stored category for a creation payload: a fresh id, the
    /// creation timestamp, and no update timestamp.
    pub fn from_create(payload: CreateCategory, id: String, created_at: String) -> (r: Category)
        ensures
            r.id == id,
            r.name == payload.name,
            r.slug == payload.slug,
            r.icon == payload.icon,
            r.image == payload.image,
            r.description == payload.description,
            r.sort_order == payload.sort_order,
            r.created_at == created_at,
            r.updated_at is None,
    {
        Category {
            id,
            name: payload.name,
            slug: payload.slug,
            icon: payload.icon,
            image: payload.image,
            description: payload.description,
            sort_order: payload.sort_order,
            created_at,
            updated_at: None,
        }
    }

    /// Merge an update into this category: every present field replaces the
    /// stored one, every absent field keeps it; the id and creation
    /// timestamp are kept, and the update timestamp is set to `now`.
    pub fn apply_update(self, input: UpdateCategory, now: String) -> (r: Category)
        ensures
            r.id == self.id,
            r.name == input.name.unwrap_or(self.name),
            r.slug == input.slug.unwrap_or(self.slug),
            r.icon == input.icon.unwrap_or(self.icon),
            r.image == input.image.unwrap_or(self.image),
            r.description == input.description.unwrap_or(self.description),
            r.sort_order == input.sort_order.unwrap_or(self.sort_order),
            r.created_at == self.created_at,
            r.updated_at == Some(now),
    {
        Category {
            id: self.id,
            name: input.name.unwrap_or(self.name),
            slug: input.slug.unwrap_or(self.slug),
            icon: input.icon.unwrap_or(self.icon),
            image: input.image.unwrap_or(self.image),
            description: input.description.unwrap_or(self.description),
            sort_order: input.sort_order.unwrap_or(self.sort_order),
            created_at: self.created_at,
            updated_at: Some(now),
        }
    }
}

/// The row offset of a page in a listing query.
pub fn query_offset(page: u32, limit: u32) -> (r: u32)
    requires
        page >= 1,
        (page - 1) * limit <= u32::MAX,
    ensures
        r == (page - 1) * limit,
{
    (page - 1) * limit
}

/// Envelope for every API response: a success flag, an optional payload and
/// an optional human-readable message.
pub struct ApiResponse<T> {
    pub success: bool,
    pub data: Option<T>,
    pub message: Option<String>,
}

impl<T> ApiResponse<T> {
    /// A successful response carrying `data` and no message.
    pub fn success(data: T) -> (r: Self)
        ensures
            r.success,
            r.data == Some(data),
            r.message is None,
    {
        Self { success: true, data: Some(data), message: None }
    }

    /// A failed response carrying only a message.
    pub fn error(message: &str) -> (r: ApiResponse<()>)
        ensures
            !r.success,
            r.data is None,
            r.message matches Some(m) && m@ == message@,
    {
        ApiResponse { success: false, data: None, message: Some(message.to_owned()) }
    }
}

/// Default image list of a product: empty.
pub fn default_images() -> (r: Vec<String>)
    ensures
        r@.len() == 0,
{
    Vec::new()
}

/// Default category of a product.
pub fn default_category() -> (r: String)
    ensures
        r@ == "ao-dai"@,
{
    "ao-dai".to_owned()
}

/// Default status of a product.
pub fn default_status() -> (r: String)
    ensures
        r@ == "active"@,
{
    "active".to_owned()
}

/// Default status of an order.
pub fn default_order_status() -> (r: String)
    ensures
        r@ == "pending"@,
{
    "pending".to_owned()
}

/// Default type tag of a setting.
pub fn default_setting_type() -> (r: String)
    ensures
        r@ == "string"@,
{
    "string".to_owned()
}

/// Default page number of a paginated listing.
pub fn default_page() -> (r: u32)
    ensures
        r == 1u32,
{
    1
}

/// Default page size of a paginated listing.
pub fn default_limit() -> (r: u32)
    ensures
        r == 20u32,
{
    20
}

} // verus!
