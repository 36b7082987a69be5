use vstd::prelude::*;
use crate::error::{AppError, ErrorModel};
use crate::product::{
    clone_opt, clone_opt_list, opt_list, shows, CreateProductRequest, Product, ProductFilter, ProductResponse,
    UpdateProductRequest,
};
use crate::text::{
    ascii_lowered, contains_ignoring_case, contains_seq, is_ascii_text, lower_of, same_text,
};
use crate::user::opt_view;

verus! {

/// Most items that a text search returns.
pub const SEARCH_LIMIT: i64 = 50;

/// The order in which a listing comes back.
#[derive(PartialEq, Eq, Structural, Clone, Copy, Debug)]
pub enum SortOrder {
    PriceAscending,
    PriceDescending,
    RatingDescending,
    NewestFirst,
}

/// The order that a sort key names; an absent or unknown key means newest first.
pub open spec fn sort_of(key: Option<Seq<char>>) -> SortOrder {
    match key {
        Some(k) => if k == "price_asc"@ {
            SortOrder::PriceAscending
        } else if k == "price_desc"@ {
            SortOrder::PriceDescending
        } else if k == "rating"@ {
            SortOrder::RatingDescending
        } else {
            SortOrder::NewestFirst
        },
        None => SortOrder::NewestFirst,
    }
}

/// Whether `a` may come before `b` in a listing sorted by `order`.
pub open spec fn ordered_before(order: SortOrder, a: Product, b: Product) -> bool {
    match order {
        SortOrder::PriceAscending => a.price <= b.price,
        SortOrder::PriceDescending => a.price >= b.price,
        SortOrder::RatingDescending => a.average_rating >= b.average_rating,
        SortOrder::NewestFirst => a.created_at >= b.created_at,
    }
}

/// Whether a sequence of items follows `order`.
pub open spec fn sorted_by(order: SortOrder, items: Seq<Product>) -> bool {
    forall|i: int, j: int| 0 <= i < j < items.len() ==> ordered_before(order, items[i], items[j])
}

/// Whether an item meets every condition of a filter.
pub open spec fn filter_admits(f: ProductFilter, p: Product) -> bool {
    &&& (f.category matches Some(c) ==> p.category@ == c@)
    &&& (f.product_type matches Some(t) ==> p.product_type@ == t@)
    &&& (f.tags matches Some(t) ==> (p.tags matches Some(ts) && exists|i: int|
        0 <= i < ts@.len() && ts@[i]@ == t@))
    &&& (f.min_price matches Some(m) ==> m <= p.price)
    &&& (f.max_price matches Some(m) ==> p.price <= m)
}

/// Items to pass over for a 1-based page of `limit` items; zero for a page before
/// the first or a negative size, and at most `u64::MAX`.
pub open spec fn skip_of(page: i64, limit: i64) -> u64 {
    if page >= 1 && limit >= 0 {
        let s = (page - 1) * limit;
        if s <= u64::MAX {
            s as u64
        } else {
            u64::MAX
        }
    } else {
        0
    }
}

/// Whether an item answers a text search: the term occurs in its name or its
/// description, ignoring case.
pub open spec fn search_admits(term: Seq<char>, p: Product) -> bool {
    contains_seq(lower_of(p.name@), lower_of(term)) || (p.description matches Some(d)
        && contains_seq(lower_of(d@), lower_of(term)))
}

/// Whether a character is a hexadecimal digit.
pub open spec fn is_hex_digit(c: char) -> bool {
    ('0' <= c && c <= '9') || ('a' <= c && c <= 'f') || ('A' <= c && c <= 'F')
}

/// Whether a text is the hex form of a stored identifier: 24 hexadecimal digits.
pub open spec fn is_object_id(s: Seq<char>) -> bool {
    s.len() == 24 && forall|i: int| 0 <= i < s.len() ==> is_hex_digit(s[i])
}

/// Whether a character has a meaning of its own in a regular expression.
pub open spec fn is_regex_meta(c: char) -> bool {
    c == '\\' || c == '.' || c == '+' || c == '*' || c == '?' || c == '(' || c == ')' || c == '|'
        || c == '[' || c == ']' || c == '{' || c == '}' || c == '^' || c == '$'
}

/// A text written as a regular expression that matches exactly that text: each
/// special character gets a backslash before it.
pub open spec fn escaped(s: Seq<char>) -> Seq<char>
    decreases s.len(),
{
    if s.len() == 0 {
        Seq::empty()
    } else if is_regex_meta(s.last()) {
        escaped(s.drop_last()) + seq!['\\', s.last()]
    } else {
        escaped(s.drop_last()) + seq![s.last()]
    }
}

/// A catalog listing request: what to match, in which order, which page.
pub struct CatalogQuery {
    pub filter: ProductFilter,
    pub sort: SortOrder,
    pub skip: u64,
    pub limit: i64,
}

/// The query string of a search request.
pub struct SearchQuery {
    pub q: String,
}

/// A text search request.
pub struct TextSearch {
    pub term: String,
    /// The term as a regular expression for the store's case-insensitive match.
    pub pattern: String,
    pub sort: SortOrder,
    pub limit: i64,
}

/// The fields that an update sets; the update time is always among them.
pub struct ProductPatch {
    pub name: Option<String>,
    pub description: Option<String>,
    pub price: Option<u64>,
    pub stock_quantity: Option<i32>,
    pub tags: Option<Vec<String>>,
    pub updated_at: i64,
}

/// The item that `p` becomes under `patch`: each field the patch sets replaced,
/// the update time refreshed, everything else kept.
pub open spec fn patched(patch: ProductPatch, p: Product, r: Product) -> bool {
    &&& r.id == p.id
    &&& r.name == (if patch.name is Some { patch.name.unwrap() } else { p.name })
    &&& r.description == (if patch.description is Some { patch.description } else { p.description })
    &&& r.category == p.category
    &&& r.product_type == p.product_type
    &&& r.price == (if patch.price is Some { patch.price.unwrap() } else { p.price })
    &&& r.stock_quantity == (if patch.stock_quantity is Some { patch.stock_quantity.unwrap() } else { p.stock_quantity })
    &&& r.cover_image == p.cover_image
    &&& r.additional_images == p.additional_images
    &&& r.label == p.label
    &&& r.average_rating == p.average_rating
    &&& r.rating_count == p.rating_count
    &&& opt_list(r.tags) == (if patch.tags is Some { opt_list(patch.tags) } else { opt_list(p.tags) })
    &&& r.created_at == p.created_at
    &&& r.updated_at == patch.updated_at
}

impl ProductPatch {
    /// The item after this patch is applied to `p`.
    pub fn apply(&self, p: Product) -> (r: Product)
        ensures
            patched(*self, p, r),
    {
        let mut r = p;
        match &self.name {
            Some(n) => r.name = n.clone(),
            None => {},
        }
        if self.description.is_some() {
            r.description = clone_opt(&self.description);
        }
        match self.price {
            Some(x) => r.price = x,
            None => {},
        }
        match self.stock_quantity {
            Some(x) => r.stock_quantity = x,
            None => {},
        }
        if self.tags.is_some() {
            r.tags = clone_opt_list(&self.tags);
        }
        r.updated_at = self.updated_at;
        r
    }
}

impl SortOrder {
    /// The order that a sort key names.
    pub fn from_key(key: Option<&str>) -> (r: SortOrder)
        ensures
            r == sort_of(
                match key {
                    Some(k) => Some(k@),
                    None => None,
                },
            ),
    {
        match key {
            Some(k) => if same_text(k, "price_asc") {
                SortOrder::PriceAscending
            } else if same_text(k, "price_desc") {
                SortOrder::PriceDescending
            } else if same_text(k, "rating") {
                SortOrder::RatingDescending
            } else {
                SortOrder::NewestFirst
            },
            None => SortOrder::NewestFirst,
        }
    }
}

impl CatalogQuery {
    /// Whether an item meets this query's conditions.
    pub fn admits(&self, p: &Product) -> (r: bool)
        ensures
            r == filter_admits(self.filter, *p),
    {
        let f = &self.filter;
        match &f.category {
            Some(c) => if p.category != *c {
                return false;
            },
            None => {},
        }
        match &f.product_type {
            Some(t) => if p.product_type != *t {
                return false;
            },
            None => {},
        }
        match &f.tags {
            Some(t) => {
                let ts = match &p.tags {
                    Some(ts) => ts,
                    None => {
                        return false;
                    },
                };
                let mut i: usize = 0;
                let mut found = false;
                while i < ts.len()
                    invariant
                        i <= ts@.len(),
                        found == exists|k: int| 0 <= k < i && ts@[k]@ == t@,
                    decreases ts@.len() - i,
                {
                    if ts[i] == *t {
                        found = true;
                    }
                    i = i + 1;
                }
                if !found {
                    return false;
                }
            },
            None => {},
        }
        match f.min_price {
            Some(m) => if p.price < m {
                return false;
            },
            None => {},
        }
        match f.max_price {
            Some(m) => if p.price > m {
                return false;
            },
            None => {},
        }
        true
    }
}

impl TextSearch {
    /// Whether an item answers this search.
    pub fn admits(&self, p: &Product) -> (r: bool)
        ensures
            r == search_admits(self.term@, *p),
            is_ascii_text(self.term@) && is_ascii_text(p.name@) && contains_seq(
                ascii_lowered(p.name@),
                ascii_lowered(self.term@),
            ) ==> r,
    {
        if contains_ignoring_case(p.name.as_str(), self.term.as_str()) {
            return true;
        }
        match &p.description {
            Some(d) => contains_ignoring_case(d.as_str(), self.term.as_str()),
            None => false,
        }
    }
}

/// A text written as a regular expression that matches exactly that text.
pub fn escape_pattern(s: &str) -> (r: String)
    ensures
        r@ == escaped(s@),
{
    let n = s.unicode_len();
    let mut out = String::new();
    let mut i: usize = 0;
    while i < n
        invariant
            n == s@.len(),
            i <= n,
            out@ == escaped(s@.subrange(0, i as int)),
        decreases n - i,
    {
        let c = s.get_char(i);
        let one = s.substring_char(i, i + 1);
        proof {
            reveal_strlit("\\");
            assert(s@.subrange(0, i + 1).drop_last() =~= s@.subrange(0, i as int));
            assert(one@ =~= seq![c]);
        }
        if c == '\\' || c == '.' || c == '+' || c == '*' || c == '?' || c == '(' || c == ')' || c
            == '|' || c == '[' || c == ']' || c == '{' || c == '}' || c == '^' || c == '$' {
            out.append("\\");
        }
        out.append(one);
        proof {
            assert(out@ =~= escaped(s@.subrange(0, i + 1)));
        }
        i = i + 1;
    }
    assert(s@.subrange(0, n as int) =~= s@);
    out
}

/// Whether a text is 24 hexadecimal digits.
fn object_id_text(s: &str) -> (r: bool)
    ensures
        r == is_object_id(s@),
{
    let n = s.unicode_len();
    if n != 24 {
        return false;
    }
    let mut i: usize = 0;
    while i < n
        invariant
            n == s@.len(),
            i <= n,
            forall|k: int| 0 <= k < i ==> is_hex_digit(s@[k]),
        decreases n - i,
    {
        let c = s.get_char(i);
        if !(('0' <= c && c <= '9') || ('a' <= c && c <= 'f') || ('A' <= c && c <= 'F')) {
            return false;
        }
        i = i + 1;
    }
    true
}

/// The stateless catalog service.
pub struct ProductService;

impl ProductService {
    /// The item to store for a creation request at time `now`: no label, no
    /// ratings yet, created and updated at `now`.
    pub fn create_prouct(req: CreateProductRequest, now: i64) -> (r: Product)
        ensures
            r.id.is_none(),
            r.name == req.name,
            r.description == req.description,
            r.category == req.category,
            r.product_type == req.product_type,
            r.price == req.price,
            r.stock_quantity == req.stock_quantity,
            r.cover_image == req.cover_image,
            r.additional_images == req.additional_images,
            r.label.is_none(),
            r.average_rating == 0,
            r.rating_count == 0,
            r.tags == req.tags,
            r.created_at == now,
            r.updated_at == now,
    {
        Product {
            id: None,
            name: req.name,
            description: req.description,
            category: req.category,
            product_type: req.product_type,
            price: req.price,
            stock_quantity: req.stock_quantity,
            cover_image: req.cover_image,
            additional_images: req.additional_images,
            label: None,
            average_rating: 0,
            rating_count: 0,
            tags: req.tags,
            created_at: now,
            updated_at: now,
        }
    }

    /// The listing request for a filter, a sort key and a 1-based page of `limit` items.
    pub fn get_products(
        filter: Option<ProductFilter>,
        sort_by: Option<String>,
        page: i64,
        limit: i64,
    ) -> (r: CatalogQuery)
        ensures
            filter matches Some(f) ==> r.filter == f,
            filter is None ==> ({
                &&& r.filter.category.is_none()
                &&& r.filter.product_type.is_none()
                &&& r.filter.tags.is_none()
                &&& r.filter.min_price.is_none()
                &&& r.filter.max_price.is_none()
            }),
            r.sort == sort_of(opt_view(sort_by)),
            r.skip == skip_of(page, limit),
            r.limit == limit,
    {
        let filter = match filter {
            Some(f) => f,
            None => ProductFilter {
                category: None,
                product_type: None,
                tags: None,
                min_price: None,
                max_price: None,
            },
        };
        let sort = match &sort_by {
            Some(k) => SortOrder::from_key(Some(k.as_str())),
            None => SortOrder::from_key(None),
        };
        let skip: u64 = if page >= 1 && limit >= 0 {
            let pages_before = (page - 1) as u64;
            match pages_before.checked_mul(limit as u64) {
                Some(s) => s,
                None => u64::MAX,
            }
        } else {
            0
        };
        CatalogQuery { filter, sort, skip, limit }
    }

    /// The search request for a term: at most 50 items, best rated first.
    pub fn search_products(search_term: &str) -> (r: TextSearch)
        ensures
            r.term@ == search_term@,
            r.pattern@ == escaped(search_term@),
            r.sort == SortOrder::RatingDescending,
            r.limit == SEARCH_LIMIT,
    {
        TextSearch {
            term: search_term.to_string(),
            pattern: escape_pattern(search_term),
            sort: SortOrder::RatingDescending,
            limit: SEARCH_LIMIT,
        }
    }

    /// Accepts an item identifier in its hex form; refuses anything else.
    pub fn check_product_id(id: &str) -> (r: Result<(), AppError>)
        ensures
            is_object_id(id@) ==> r is Ok,
            !is_object_id(id@) ==> (r matches Err(e) && e@ == ErrorModel::ValidationError(
                "Invalid product ID"@,
            )),
    {
        if object_id_text(id) {
            Ok(())
        } else {
            Err(AppError::ValidationError(String::from_str("Invalid product ID")))
        }
    }

    /// The response for a lookup by identifier: the item, or NotFound.
    pub fn get_product_by_id(found: Option<Product>) -> (r: Result<ProductResponse, AppError>)
        requires
            found matches Some(p) ==> p.id.is_some(),
        ensures
            found is None ==> (r matches Err(e) && e@ == ErrorModel::NotFound(
                "Product not found"@,
            )),
            found matches Some(p) ==> (r matches Ok(resp) && shows(resp, p)),
    {
        match found {
            Some(p) => Ok(p.to_response()),
            None => Err(AppError::NotFound(String::from_str("Product not found"))),
        }
    }

    /// The fields that an update request sets at time `now`.
    pub fn update_product(req: UpdateProductRequest, now: i64) -> (r: ProductPatch)
        ensures
            r.name == req.name,
            r.description == req.description,
            r.price == req.price,
            r.stock_quantity == req.stock_quantity,
            r.tags == req.tags,
            r.updated_at == now,
    {
        ProductPatch {
            name: req.name,
            description: req.description,
            price: req.price,
            stock_quantity: req.stock_quantity,
            tags: req.tags,
            updated_at: now,
        }
    }

    /// The outcome of a deletion that removed `deleted_count` items.
    pub fn delete_product(deleted_count: u64) -> (r: Result<(), AppError>)
        ensures
            deleted_count == 0 ==> (r matches Err(e) && e@ == ErrorModel::NotFound(
                "Product not found"@,
            )),
            deleted_count > 0 ==> r is Ok,
    {
        if deleted_count == 0 {
            Err(AppError::NotFound(String::from_str("Product not found")))
        } else {
            Ok(())
        }
    }
}

/// Every item that a filter with a price range admits has its price inside the range.
pub proof fn lemma_price_range_respected(f: ProductFilter, p: Product)
    requires
        filter_admits(f, p),
    ensures
        f.min_price matches Some(m) ==> m <= p.price,
        f.max_price matches Some(m) ==> p.price <= m,
{
}

/// A listing in the order that the key `price_desc` names has non-increasing prices.
pub proof fn lemma_price_desc_non_increasing(items: Seq<Product>)
    requires
        sorted_by(sort_of(Some("price_desc"@)), items),
    ensures
        forall|i: int, j: int| 0 <= i < j < items.len() ==> items[i].price >= items[j].price,
{
    reveal_strlit("price_desc");
    reveal_strlit("price_asc");
    assert("price_desc"@.len() == 10);
    assert("price_asc"@.len() == 9);
    assert(sort_of(Some("price_desc"@)) == SortOrder::PriceDescending);
    assert forall|i: int, j: int| 0 <= i < j < items.len() implies items[i].price
        >= items[j].price by {
        assert(ordered_before(SortOrder::PriceDescending, items[i], items[j]));
    }
}

} // verus!
