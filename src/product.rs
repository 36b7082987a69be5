use vstd::prelude::*;

verus! {

/// The items of an optional list.
pub open spec fn opt_list(o: Option<Vec<String>>) -> Option<Seq<String>> {
    match o {
        Some(v) => Some(v@),
        None => None,
    }
}

/// A copy of an optional text.
pub fn clone_opt(o: &Option<String>) -> (r: Option<String>)
    ensures
        r == *o,
{
    match o {
        Some(s) => Some(s.clone()),
        None => None,
    }
}

/// A copy of an optional list of texts.
pub fn clone_opt_list(o: &Option<Vec<String>>) -> (r: Option<Vec<String>>)
    ensures
        opt_list(r) == opt_list(*o),
{
    match o {
        Some(v) => {
            let mut out: Vec<String> = Vec::new();
            let mut i: usize = 0;
            while i < v.len()
                invariant
                    i <= v@.len(),
                    out@ == v@.subrange(0, i as int),
                decreases v@.len() - i,
            {
                out.push(v[i].clone());
                i = i + 1;
            }
            assert(out@ =~= v@);
            Some(out)
        },
        None => None,
    }
}

/// A sellable catalog item. Prices are in minor currency units (cents), ratings in
/// hundredths of a point, times in milliseconds since the Unix epoch.
pub struct Product {
    /// Hex form of the stored identifier; `None` until the item is stored.
    pub id: Option<String>,
    pub name: String,
    pub description: Option<String>,
    pub category: String,
    pub product_type: String,
    pub price: u64,
    pub stock_quantity: i32,
    pub cover_image: Option<String>,
    pub additional_images: Option<Vec<String>>,
    pub label: Option<String>,
    pub average_rating: u64,
    pub rating_count: i32,
    pub tags: Option<Vec<String>>,
    pub created_at: i64,
    pub updated_at: i64,
}

pub struct CreateProductRequest {
    pub name: String,
    pub description: Option<String>,
    pub category: String,
    pub product_type: String,
    pub price: u64,
    pub stock_quantity: i32,
    pub cover_image: Option<String>,
    pub additional_images: Option<Vec<String>>,
    pub tags: Option<Vec<String>>,
}

/// The fields that an update may change; absent ones stay as they are.
pub struct UpdateProductRequest {
    pub name: Option<String>,
    pub description: Option<String>,
    pub price: Option<u64>,
    pub stock_quantity: Option<i32>,
    pub tags: Option<Vec<String>>,
}

/// What a client sees of a catalog item.
pub struct ProductResponse {
    pub id: String,
    pub name: String,
    pub description: Option<String>,
    pub category: String,
    pub product_type: String,
    pub price: u64,
    pub stock_quantity: i32,
    pub cover_image: Option<String>,
    pub additional_images: Option<Vec<String>>,
    pub label: Option<String>,
    pub average_rating: u64,
    pub rating_count: i32,
    pub tags: Option<Vec<String>>,
    pub created_at: i64,
}

/// Conditions that narrow a catalog listing; each one given must hold.
pub struct ProductFilter {
    pub category: Option<String>,
    pub product_type: Option<String>,
    /// A tag that the item's tag list must contain.
    pub tags: Option<String>,
    pub min_price: Option<u64>,
    pub max_price: Option<u64>,
}

pub struct PaginationParams {
    pub page: i64,
    pub limit: i64,
}

/// Page number used when a listing request names none.
pub fn default_page() -> (r: i64)
    ensures
        r == 1,
{
    1
}

/// Page size used when a listing request names none.
pub fn default_limit() -> (r: i64)
    ensures
        r == 20,
{
    20
}

impl PaginationParams {
    /// The first page, of the default size.
    pub fn first_page() -> (r: PaginationParams)
        ensures
            r.page == 1,
            r.limit == 20,
    {
        PaginationParams { page: default_page(), limit: default_limit() }
    }
}

/// Whether `r` shows the stored item `p`: every field but the update time.
pub open spec fn shows(r: ProductResponse, p: Product) -> bool {
    &&& p.id == Some(r.id)
    &&& r.name == p.name
    &&& r.description == p.description
    &&& r.category == p.category
    &&& r.product_type == p.product_type
    &&& r.price == p.price
    &&& r.stock_quantity == p.stock_quantity
    &&& r.cover_image == p.cover_image
    &&& opt_list(r.additional_images) == opt_list(p.additional_images)
    &&& r.label == p.label
    &&& r.average_rating == p.average_rating
    &&& r.rating_count == p.rating_count
    &&& opt_list(r.tags) == opt_list(p.tags)
    &&& r.created_at == p.created_at
}

impl Product {
    /// What a client sees of a stored item: every field but the update time.
    pub fn to_response(&self) -> (r: ProductResponse)
        requires
            self.id.is_some(),
        ensures
            shows(r, *self),
    {
        let id = match &self.id {
            Some(id) => id.clone(),
            None => String::new(),
        };
        ProductResponse {
            id,
            name: self.name.clone(),
            description: clone_opt(&self.description),
            category: self.category.clone(),
            product_type: self.product_type.clone(),
            price: self.price,
            stock_quantity: self.stock_quantity,
            cover_image: clone_opt(&self.cover_image),
            additional_images: clone_opt_list(&self.additional_images),
            label: clone_opt(&self.label),
            average_rating: self.average_rating,
            rating_count: self.rating_count,
            tags: clone_opt_list(&self.tags),
            created_at: self.created_at,
        }
    }
}

} // verus!
