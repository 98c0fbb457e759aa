//! Data model of the catalog: the three catalog entity kinds, users,
//! sales, and the request/response shapes of the service layer.
//!
//! Every executable type has a mathematical view (`...V`) over sequences
//! and plain values; all contracts in the library speak about these views.
//! Prices are cents (see `money`), timestamps are seconds since the epoch.

use vstd::prelude::*;

use crate::strutil::str_eq;
use crate::text::{MultiLanguageText, TextV};

verus! {

/// The closed set of catalog entity kinds a sale can reference.
#[derive(Clone, Copy, Debug, PartialEq, Eq, Structural)]
pub enum ProductType {
    Product,
    Handmade,
    Build,
}

/// A user's role; only admins may reach the mutating admin operations.
#[derive(Clone, Copy, Debug, PartialEq, Eq, Structural)]
pub enum Role {
    User,
    Admin,
}

/// The wire spelling of a role.
pub open spec fn role_str(r: Role) -> Seq<char> {
    match r {
        Role::User => "user"@,
        Role::Admin => "admin"@,
    }
}

/// The role a wire spelling denotes, if any.
pub open spec fn role_of_str(s: Seq<char>) -> Option<Role> {
    if s == "user"@ {
        Some(Role::User)
    } else if s == "admin"@ {
        Some(Role::Admin)
    } else {
        None
    }
}

impl Role {
    /// The wire spelling of this role.
    pub fn as_str(&self) -> (r: &'static str)
        ensures
            r@ == role_str(*self),
    {
        match self {
            Role::User => "user",
            Role::Admin => "admin",
        }
    }
}

/// Parse a wire spelling back into a role.
pub fn parse_role(s: &str) -> (r: Option<Role>)
    ensures
        r == role_of_str(s@),
{
    if str_eq(s, "user") {
        Some(Role::User)
    } else if str_eq(s, "admin") {
        Some(Role::Admin)
    } else {
        None
    }
}

/// Serializing a role and parsing it back yields the same role.
pub proof fn lemma_role_round_trip(r: Role)
    ensures
        role_of_str(role_str(r)) == Some(r),
{
    reveal_strlit("user");
    reveal_strlit("admin");
    assert("user"@.len() == 4);
    assert("admin"@.len() == 5);
}

/// One key/value pair of an entity's specification table.
#[derive(Debug, PartialEq)]
pub struct SpecEntry {
    pub key: String,
    pub value: String,
}

pub struct SpecEntryV {
    pub key: Seq<char>,
    pub value: Seq<char>,
}

impl View for SpecEntry {
    type V = SpecEntryV;

    open spec fn view(&self) -> SpecEntryV {
        SpecEntryV { key: self.key@, value: self.value@ }
    }
}

impl DeepView for SpecEntry {
    type V = SpecEntryV;

    open spec fn deep_view(&self) -> SpecEntryV {
        self.view()
    }
}

impl Clone for SpecEntry {
    fn clone(&self) -> (r: Self)
        ensures
            r == *self,
    {
        SpecEntry { key: self.key.clone(), value: self.value.clone() }
    }
}

/// Well-formedness of a specification table: keys are unique, as in the
/// JSON object the table stands for. The boundary that parses such an
/// object yields unique keys by construction, and the repositories
/// store the entries verbatim; it is stated here as the table's
/// invariant rather than demanded of callers, since the repositories
/// perform no validation of their own.
pub open spec fn spec_keys_unique(entries: Seq<SpecEntryV>) -> bool {
    forall|i: int, j: int|
        0 <= i < entries.len() && 0 <= j < entries.len() && i != j ==> (
        #[trigger] entries[i]).key != (#[trigger] entries[j]).key
}

/// One component of a build: a reference to a product, with a quantity.
#[derive(Debug, PartialEq)]
pub struct BuildComponent {
    pub product_id: String,
    pub quantity: u32,
    pub notes: Option<String>,
}

pub struct BuildComponentV {
    pub product_id: Seq<char>,
    pub quantity: u32,
    pub notes: Option<Seq<char>>,
}

impl View for BuildComponent {
    type V = BuildComponentV;

    open spec fn view(&self) -> BuildComponentV {
        BuildComponentV {
            product_id: self.product_id@,
            quantity: self.quantity,
            notes: self.notes.deep_view(),
        }
    }
}

impl DeepView for BuildComponent {
    type V = BuildComponentV;

    open spec fn deep_view(&self) -> BuildComponentV {
        self.view()
    }
}

impl Clone for BuildComponent {
    fn clone(&self) -> (r: Self)
        ensures
            r == *self,
    {
        BuildComponent {
            product_id: self.product_id.clone(),
            quantity: self.quantity,
            notes: clone_opt_string(&self.notes),
        }
    }
}

/// Clone an optional string, preserving its value.
pub fn clone_opt_string(o: &Option<String>) -> (r: Option<String>)
    ensures
        r == *o,
{
    match o {
        Some(s) => Some(s.clone()),
        None => None,
    }
}

/// Clone a vector of strings, preserving its value.
pub fn clone_string_vec(v: &Vec<String>) -> (r: Vec<String>)
    ensures
        r@ == v@,
{
    let mut out: Vec<String> = Vec::new();
    let mut i: usize = 0;
    while i < v.len()
        invariant
            i <= v.len(),
            out@.len() == i,
            forall|j: int| 0 <= j < i ==> out@[j] == v@[j],
        decreases v.len() - i,
    {
        out.push(v[i].clone());
        i = i + 1;
    }
    assert(out@ =~= v@);
    out
}

/// Clone a specification table, preserving its value.
pub fn clone_spec_entries(v: &Vec<SpecEntry>) -> (r: Vec<SpecEntry>)
    ensures
        r@ == v@,
{
    let mut out: Vec<SpecEntry> = Vec::new();
    let mut i: usize = 0;
    while i < v.len()
        invariant
            i <= v.len(),
            out@.len() == i,
            forall|j: int| 0 <= j < i ==> out@[j] == v@[j],
        decreases v.len() - i,
    {
        out.push(v[i].clone());
        i = i + 1;
    }
    assert(out@ =~= v@);
    out
}

/// Clone a component list, preserving its value.
pub fn clone_components(v: &Vec<BuildComponent>) -> (r: Vec<BuildComponent>)
    ensures
        r@ == v@,
{
    let mut out: Vec<BuildComponent> = Vec::new();
    let mut i: usize = 0;
    while i < v.len()
        invariant
            i <= v.len(),
            out@.len() == i,
            forall|j: int| 0 <= j < i ==> out@[j] == v@[j],
        decreases v.len() - i,
    {
        out.push(v[i].clone());
        i = i + 1;
    }
    assert(out@ =~= v@);
    out
}

fn clone_opt_string_vec(o: &Option<Vec<String>>) -> (r: Option<Vec<String>>)
    ensures
        r.deep_view() == o.deep_view(),
{
    match o {
        Some(v) => Some(clone_string_vec(v)),
        None => None,
    }
}

fn clone_opt_spec_entries(o: &Option<Vec<SpecEntry>>) -> (r: Option<Vec<SpecEntry>>)
    ensures
        r.deep_view() == o.deep_view(),
{
    match o {
        Some(v) => Some(clone_spec_entries(v)),
        None => None,
    }
}

/// A manufactured product.
#[derive(Debug, PartialEq)]
pub struct Product {
    pub id: String,
    pub name: MultiLanguageText,
    pub description: MultiLanguageText,
    pub price: u64,
    pub thumbnail_image: String,
    pub category: String,
    pub subcategory: String,
    pub original_price: Option<u64>,
    pub feature_images: Option<Vec<String>>,
    pub specs: Option<Vec<SpecEntry>>,
    pub brand: Option<String>,
    pub stock: Option<u32>,
    pub acquisition_date: Option<u64>,
    pub is_new: Option<bool>,
    pub is_popular: Option<bool>,
    pub is_offer: Option<bool>,
    pub created_at: u64,
    pub updated_at: u64,
}

pub struct ProductV {
    pub id: Seq<char>,
    pub name: TextV,
    pub description: TextV,
    pub price: u64,
    pub thumbnail_image: Seq<char>,
    pub category: Seq<char>,
    pub subcategory: Seq<char>,
    pub original_price: Option<u64>,
    pub feature_images: Option<Seq<Seq<char>>>,
    pub specs: Option<Seq<SpecEntryV>>,
    pub brand: Option<Seq<char>>,
    pub stock: Option<u32>,
    pub acquisition_date: Option<u64>,
    pub is_new: Option<bool>,
    pub is_popular: Option<bool>,
    pub is_offer: Option<bool>,
    pub created_at: u64,
    pub updated_at: u64,
}

impl View for Product {
    type V = ProductV;

    open spec fn view(&self) -> ProductV {
        ProductV {
            id: self.id@,
            name: self.name@,
            description: self.description@,
            price: self.price,
            thumbnail_image: self.thumbnail_image@,
            category: self.category@,
            subcategory: self.subcategory@,
            original_price: self.original_price,
            feature_images: self.feature_images.deep_view(),
            specs: self.specs.deep_view(),
            brand: self.brand.deep_view(),
            stock: self.stock,
            acquisition_date: self.acquisition_date,
            is_new: self.is_new,
            is_popular: self.is_popular,
            is_offer: self.is_offer,
            created_at: self.created_at,
            updated_at: self.updated_at,
        }
    }
}

impl DeepView for Product {
    type V = ProductV;

    open spec fn deep_view(&self) -> ProductV {
        self.view()
    }
}

impl Clone for Product {
    fn clone(&self) -> (r: Self)
        ensures
            r@ == self@,
    {
        Product {
            id: self.id.clone(),
            name: self.name.clone(),
            description: self.description.clone(),
            price: self.price,
            thumbnail_image: self.thumbnail_image.clone(),
            category: self.category.clone(),
            subcategory: self.subcategory.clone(),
            original_price: self.original_price,
            feature_images: clone_opt_string_vec(&self.feature_images),
            specs: clone_opt_spec_entries(&self.specs),
            brand: clone_opt_string(&self.brand),
            stock: self.stock,
            acquisition_date: self.acquisition_date,
            is_new: self.is_new,
            is_popular: self.is_popular,
            is_offer: self.is_offer,
            created_at: self.created_at,
            updated_at: self.updated_at,
        }
    }
}

/// A handmade product; its descriptive fields are all required.
#[derive(Debug, PartialEq)]
pub struct HandmadeProduct {
    pub id: String,
    pub name: MultiLanguageText,
    pub description: MultiLanguageText,
    pub long_description: MultiLanguageText,
    pub price: u64,
    pub thumbnail_image: String,
    pub feature_images: Vec<String>,
    pub category: String,
    pub subcategory: String,
    pub specs: Vec<SpecEntry>,
    pub original_price: Option<u64>,
    pub stock: Option<u32>,
    pub acquisition_date: Option<u64>,
    pub is_offer: Option<bool>,
    pub created_at: u64,
    pub updated_at: u64,
}

pub struct HandmadeProductV {
    pub id: Seq<char>,
    pub name: TextV,
    pub description: TextV,
    pub long_description: TextV,
    pub price: u64,
    pub thumbnail_image: Seq<char>,
    pub feature_images: Seq<Seq<char>>,
    pub category: Seq<char>,
    pub subcategory: Seq<char>,
    pub specs: Seq<SpecEntryV>,
    pub original_price: Option<u64>,
    pub stock: Option<u32>,
    pub acquisition_date: Option<u64>,
    pub is_offer: Option<bool>,
    pub created_at: u64,
    pub updated_at: u64,
}

impl View for HandmadeProduct {
    type V = HandmadeProductV;

    open spec fn view(&self) -> HandmadeProductV {
        HandmadeProductV {
            id: self.id@,
            name: self.name@,
            description: self.description@,
            long_description: self.long_description@,
            price: self.price,
            thumbnail_image: self.thumbnail_image@,
            feature_images: self.feature_images.deep_view(),
            category: self.category@,
            subcategory: self.subcategory@,
            specs: self.specs.deep_view(),
            original_price: self.original_price,
            stock: self.stock,
            acquisition_date: self.acquisition_date,
            is_offer: self.is_offer,
            created_at: self.created_at,
            updated_at: self.updated_at,
        }
    }
}

impl DeepView for HandmadeProduct {
    type V = HandmadeProductV;

    open spec fn deep_view(&self) -> HandmadeProductV {
        self.view()
    }
}

impl Clone for HandmadeProduct {
    fn clone(&self) -> (r: Self)
        ensures
            r@ == self@,
    {
        HandmadeProduct {
            id: self.id.clone(),
            name: self.name.clone(),
            description: self.description.clone(),
            long_description: self.long_description.clone(),
            price: self.price,
            thumbnail_image: self.thumbnail_image.clone(),
            feature_images: clone_string_vec(&self.feature_images),
            category: self.category.clone(),
            subcategory: self.subcategory.clone(),
            specs: clone_spec_entries(&self.specs),
            original_price: self.original_price,
            stock: self.stock,
            acquisition_date: self.acquisition_date,
            is_offer: self.is_offer,
            created_at: self.created_at,
            updated_at: self.updated_at,
        }
    }
}

/// A build: a composite catalog item assembled from products.
#[derive(Debug, PartialEq)]
pub struct Build {
    pub id: String,
    pub name: MultiLanguageText,
    pub description: MultiLanguageText,
    pub long_description: MultiLanguageText,
    pub price: u64,
    pub thumbnail_image: String,
    pub feature_images: Vec<String>,
    pub category: String,
    pub subcategory: String,
    pub specs: Vec<SpecEntry>,
    pub components: Vec<BuildComponent>,
    pub original_price: Option<u64>,
    pub stock: Option<u32>,
    pub acquisition_date: Option<u64>,
    pub is_offer: Option<bool>,
    pub created_at: u64,
    pub updated_at: u64,
}

pub struct BuildV {
    pub id: Seq<char>,
    pub name: TextV,
    pub description: TextV,
    pub long_description: TextV,
    pub price: u64,
    pub thumbnail_image: Seq<char>,
    pub feature_images: Seq<Seq<char>>,
    pub category: Seq<char>,
    pub subcategory: Seq<char>,
    pub specs: Seq<SpecEntryV>,
    pub components: Seq<BuildComponentV>,
    pub original_price: Option<u64>,
    pub stock: Option<u32>,
    pub acquisition_date: Option<u64>,
    pub is_offer: Option<bool>,
    pub created_at: u64,
    pub updated_at: u64,
}

impl View for Build {
    type V = BuildV;

    open spec fn view(&self) -> BuildV {
        BuildV {
            id: self.id@,
            name: self.name@,
            description: self.description@,
            long_description: self.long_description@,
            price: self.price,
            thumbnail_image: self.thumbnail_image@,
            feature_images: self.feature_images.deep_view(),
            category: self.category@,
            subcategory: self.subcategory@,
            specs: self.specs.deep_view(),
            components: self.components.deep_view(),
            original_price: self.original_price,
            stock: self.stock,
            acquisition_date: self.acquisition_date,
            is_offer: self.is_offer,
            created_at: self.created_at,
            updated_at: self.updated_at,
        }
    }
}

impl DeepView for Build {
    type V = BuildV;

    open spec fn deep_view(&self) -> BuildV {
        self.view()
    }
}

impl Clone for Build {
    fn clone(&self) -> (r: Self)
        ensures
            r@ == self@,
    {
        Build {
            id: self.id.clone(),
            name: self.name.clone(),
            description: self.description.clone(),
            long_description: self.long_description.clone(),
            price: self.price,
            thumbnail_image: self.thumbnail_image.clone(),
            feature_images: clone_string_vec(&self.feature_images),
            category: self.category.clone(),
            subcategory: self.subcategory.clone(),
            specs: clone_spec_entries(&self.specs),
            components: clone_components(&self.components),
            original_price: self.original_price,
            stock: self.stock,
            acquisition_date: self.acquisition_date,
            is_offer: self.is_offer,
            created_at: self.created_at,
            updated_at: self.updated_at,
        }
    }
}

/// A registered account. The password field holds only the salted hash.
#[derive(Debug, PartialEq)]
pub struct User {
    pub id: String,
    pub email: String,
    pub password: String,
    pub name: String,
    pub role: Role,
    pub created_at: u64,
}

pub struct UserV {
    pub id: Seq<char>,
    pub email: Seq<char>,
    pub password: Seq<char>,
    pub name: Seq<char>,
    pub role: Role,
    pub created_at: u64,
}

impl View for User {
    type V = UserV;

    open spec fn view(&self) -> UserV {
        UserV {
            id: self.id@,
            email: self.email@,
            password: self.password@,
            name: self.name@,
            role: self.role,
            created_at: self.created_at,
        }
    }
}

impl DeepView for User {
    type V = UserV;

    open spec fn deep_view(&self) -> UserV {
        self.view()
    }
}

impl Clone for User {
    fn clone(&self) -> (r: Self)
        ensures
            r == *self,
    {
        User {
            id: self.id.clone(),
            email: self.email.clone(),
            password: self.password.clone(),
            name: self.name.clone(),
            role: self.role,
            created_at: self.created_at,
        }
    }
}

/// The verified payload of a session token.
#[derive(Debug, PartialEq)]
pub struct Claims {
    pub sub: String,
    pub exp: u64,
    pub iat: u64,
    pub role: Role,
}

pub struct ClaimsV {
    pub sub: Seq<char>,
    pub exp: u64,
    pub iat: u64,
    pub role: Role,
}

impl View for Claims {
    type V = ClaimsV;

    open spec fn view(&self) -> ClaimsV {
        ClaimsV { sub: self.sub@, exp: self.exp, iat: self.iat, role: self.role }
    }
}

/// Credentials presented at login.
#[derive(Debug, PartialEq)]
pub struct LoginRequest {
    pub email: String,
    pub password: String,
}

/// The data needed to register a new account.
#[derive(Debug, PartialEq)]
pub struct RegisterRequest {
    pub email: String,
    pub password: String,
    pub name: String,
}

/// A token together with the account it identifies.
#[derive(Debug, PartialEq)]
pub struct AuthResponse {
    pub token: String,
    pub user: User,
}

/// The public shape of an account, without the password hash.
#[derive(Debug, PartialEq)]
pub struct UserResponse {
    pub id: String,
    pub email: String,
    pub name: String,
    pub role: Role,
}

impl UserResponse {
    /// The public shape of `user`.
    pub fn from_user(user: &User) -> (r: UserResponse)
        ensures
            r.id@ == user@.id,
            r.email@ == user@.email,
            r.name@ == user@.name,
            r.role == user@.role,
    {
        UserResponse {
            id: user.id.clone(),
            email: user.email.clone(),
            name: user.name.clone(),
            role: user.role,
        }
    }
}

/// A recorded sale; immutable once created.
#[derive(Debug, PartialEq)]
pub struct Sale {
    pub id: String,
    pub product_id: String,
    pub product_type: ProductType,
    pub product_name: String,
    pub quantity: u32,
    pub unit_price: u64,
    pub total_price: u64,
    pub discount: Option<u32>,
    pub final_price: u64,
    pub customer_name: String,
    pub customer_email: Option<String>,
    pub customer_phone: Option<String>,
    pub payment_method: String,
    pub notes: Option<String>,
    pub sale_date: u64,
    pub created_at: u64,
}

pub struct SaleV {
    pub id: Seq<char>,
    pub product_id: Seq<char>,
    pub product_type: ProductType,
    pub product_name: Seq<char>,
    pub quantity: u32,
    pub unit_price: u64,
    pub total_price: u64,
    pub discount: Option<u32>,
    pub final_price: u64,
    pub customer_name: Seq<char>,
    pub customer_email: Option<Seq<char>>,
    pub customer_phone: Option<Seq<char>>,
    pub payment_method: Seq<char>,
    pub notes: Option<Seq<char>>,
    pub sale_date: u64,
    pub created_at: u64,
}

impl View for Sale {
    type V = SaleV;

    open spec fn view(&self) -> SaleV {
        SaleV {
            id: self.id@,
            product_id: self.product_id@,
            product_type: self.product_type,
            product_name: self.product_name@,
            quantity: self.quantity,
            unit_price: self.unit_price,
            total_price: self.total_price,
            discount: self.discount,
            final_price: self.final_price,
            customer_name: self.customer_name@,
            customer_email: self.customer_email.deep_view(),
            customer_phone: self.customer_phone.deep_view(),
            payment_method: self.payment_method@,
            notes: self.notes.deep_view(),
            sale_date: self.sale_date,
            created_at: self.created_at,
        }
    }
}

impl DeepView for Sale {
    type V = SaleV;

    open spec fn deep_view(&self) -> SaleV {
        self.view()
    }
}

impl Clone for Sale {
    fn clone(&self) -> (r: Self)
        ensures
            r == *self,
    {
        Sale {
            id: self.id.clone(),
            product_id: self.product_id.clone(),
            product_type: self.product_type,
            product_name: self.product_name.clone(),
            quantity: self.quantity,
            unit_price: self.unit_price,
            total_price: self.total_price,
            discount: self.discount,
            final_price: self.final_price,
            customer_name: self.customer_name.clone(),
            customer_email: clone_opt_string(&self.customer_email),
            customer_phone: clone_opt_string(&self.customer_phone),
            payment_method: self.payment_method.clone(),
            notes: clone_opt_string(&self.notes),
            sale_date: self.sale_date,
            created_at: self.created_at,
        }
    }
}

/// The client-supplied part of a new manufactured product; the server
/// assigns id and timestamps.
#[derive(Debug, PartialEq)]
pub struct CreateProductRequest {
    pub name: MultiLanguageText,
    pub description: MultiLanguageText,
    pub price: u64,
    pub thumbnail_image: String,
    pub category: String,
    pub subcategory: String,
    pub original_price: Option<u64>,
    pub feature_images: Option<Vec<String>>,
    pub specs: Option<Vec<SpecEntry>>,
    pub brand: Option<String>,
    pub stock: Option<u32>,
    pub acquisition_date: Option<u64>,
    pub is_new: Option<bool>,
    pub is_popular: Option<bool>,
    pub is_offer: Option<bool>,
}

/// The client-supplied part of a new handmade product.
#[derive(Debug, PartialEq)]
pub struct CreateHandmadeProductRequest {
    pub name: MultiLanguageText,
    pub description: MultiLanguageText,
    pub long_description: MultiLanguageText,
    pub price: u64,
    pub thumbnail_image: String,
    pub feature_images: Vec<String>,
    pub category: String,
    pub subcategory: String,
    pub specs: Vec<SpecEntry>,
    pub original_price: Option<u64>,
    pub stock: Option<u32>,
    pub acquisition_date: Option<u64>,
    pub is_offer: Option<bool>,
}

/// The client-supplied part of a new build.
#[derive(Debug, PartialEq)]
pub struct CreateBuildRequest {
    pub name: MultiLanguageText,
    pub description: MultiLanguageText,
    pub long_description: MultiLanguageText,
    pub price: u64,
    pub thumbnail_image: String,
    pub feature_images: Vec<String>,
    pub category: String,
    pub subcategory: String,
    pub specs: Vec<SpecEntry>,
    pub components: Vec<BuildComponent>,
    pub original_price: Option<u64>,
    pub stock: Option<u32>,
    pub acquisition_date: Option<u64>,
    pub is_offer: Option<bool>,
}

/// A request to record a sale of one catalog entity.
#[derive(Debug, PartialEq)]
pub struct CreateSaleRequest {
    pub product_id: String,
    pub product_type: ProductType,
    pub quantity: u32,
    pub discount: Option<u32>,
    pub customer_name: String,
    pub customer_email: Option<String>,
    pub customer_phone: Option<String>,
    pub payment_method: String,
    pub notes: Option<String>,
}

pub struct CreateSaleRequestV {
    pub product_id: Seq<char>,
    pub product_type: ProductType,
    pub quantity: u32,
    pub discount: Option<u32>,
    pub customer_name: Seq<char>,
    pub customer_email: Option<Seq<char>>,
    pub customer_phone: Option<Seq<char>>,
    pub payment_method: Seq<char>,
    pub notes: Option<Seq<char>>,
}

impl View for CreateSaleRequest {
    type V = CreateSaleRequestV;

    open spec fn view(&self) -> CreateSaleRequestV {
        CreateSaleRequestV {
            product_id: self.product_id@,
            product_type: self.product_type,
            quantity: self.quantity,
            discount: self.discount,
            customer_name: self.customer_name@,
            customer_email: self.customer_email.deep_view(),
            customer_phone: self.customer_phone.deep_view(),
            payment_method: self.payment_method@,
            notes: self.notes.deep_view(),
        }
    }
}

} // verus!
