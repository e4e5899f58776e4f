//! The Products API: inventories sold through the integration.

use vstd::prelude::*;
use crate::datetime::{UtcDateTime, opt_date_pair};
use crate::json::{JsonObj, jopt_bool, jopt_int, jstr, obj_ser};
use crate::paystack::transactions::Currency;
use crate::request::{
    HttpRequest, Method, body_request, get_request, make_get_request, make_request,
};
use crate::text::dec_int;
use crate::urlenc::{QueryString, opt_int_pair, pairs_text};

verus! {

/// A client for creating and managing products.
#[derive(Debug, Default)]
pub struct Products {
    pub(crate) bearer_auth: String,
}

impl Products {
    /// The bearer authorization text this resource sends.
    pub closed spec fn bearer(self) -> Seq<char> {
        self.bearer_auth@
    }

    /// Binds the resource client to the authorization header it sends.
    pub fn with_auth(bearer_auth: String) -> (r: Products)
        ensures
            r.bearer() == bearer_auth@,
    {
        Products { bearer_auth }
    }
}

/// The body of a request to create a product.
#[derive(Debug)]
pub struct CreateProductBody {
    /// Name of the product.
    pub name: String,
    /// A description for this product.
    pub description: String,
    /// Price in the currency's subunit (kobo, pesewas or cents).
    pub price: i128,
    /// Currency in which the price is set.
    pub currency: Currency,
    /// True when the product has limited stock.
    pub limited: Option<bool>,
    /// Number of products in stock, when limited.
    pub quantity: Option<i128>,
}

impl CreateProductBody {
    /// The members of the serialized JSON body, in declaration order.
    pub open spec fn json_fields(self) -> Seq<(Seq<char>, Seq<char>)> {
        seq![
            ("name"@, jstr(self.name@)),
            ("description"@, jstr(self.description@)),
            ("price"@, dec_int(self.price as int)),
            ("currency"@, jstr(self.currency.spec_code())),
            ("limited"@, jopt_bool(self.limited)),
            ("quantity"@, jopt_int(self.quantity)),
        ]
    }

    /// Serializes the body to its JSON text.
    pub fn to_json(&self) -> (r: String)
        ensures
            r@ == obj_ser(self.json_fields()),
    {
        let mut o = JsonObj::new();
        o.field_str("name", self.name.as_str());
        o.field_str("description", self.description.as_str());
        o.field_int("price", self.price);
        o.field_str("currency", self.currency.code());
        o.field_opt_bool("limited", &self.limited);
        o.field_opt_int("quantity", &self.quantity);
        proof {
            assert(o@ =~~= self.json_fields());
        }
        o.finish()
    }
}

/// The query parameters of a request to list products.
#[derive(Debug, Default)]
pub struct ListProductsParams {
    /// Records per page; the remote default is 50.
    pub per_page: Option<i128>,
    /// Page to retrieve; the remote default is 1.
    pub page: Option<i128>,
    /// List products from this timestamp on.
    pub from: Option<UtcDateTime>,
    /// List products up to this timestamp.
    pub to: Option<UtcDateTime>,
}

impl ListProductsParams {
    /// Every timestamp present lies in its calendar range.
    pub open spec fn wf(self) -> bool {
        &&& match self.from {
            Option::Some(d) => d.wf(),
            Option::None => true,
        }
        &&& match self.to {
            Option::Some(d) => d.wf(),
            Option::None => true,
        }
    }

    /// The key/value pairs of the query string, in declaration
    /// order; absent parameters contribute nothing.
    pub open spec fn query_pairs(self) -> Seq<(Seq<char>, Seq<char>)> {
        opt_int_pair("perPage"@, self.per_page)
                + opt_int_pair("page"@, self.page)
                + opt_date_pair("from"@, self.from)
                + opt_date_pair("to"@, self.to)
    }

    /// Encodes the parameters as a query string.
    #[verifier::rlimit(100)]
    pub fn to_query(&self) -> (r: String)
        requires
            self.wf(),
        ensures
            r@ == pairs_text(self.query_pairs()),
    {
        let mut q = QueryString::new();
        match &self.per_page {
            Option::Some(v) => q.pair_int("perPage", *v),
            Option::None => (),
        }
        match &self.page {
            Option::Some(v) => q.pair_int("page", *v),
            Option::None => (),
        }
        match &self.from {
            Option::Some(d) => {
                let t = d.to_rfc3339();
                q.pair_str("from", t.as_str());
            },
            Option::None => (),
        }
        match &self.to {
            Option::Some(d) => {
                let t = d.to_rfc3339();
                q.pair_str("to", t.as_str());
            },
            Option::None => (),
        }
        proof {
            assert(q@ =~~= self.query_pairs());
        }
        q.finish()
    }
}

/// The body of a request to update a product.
#[derive(Debug)]
pub struct UpdateProductsBody {
    /// Name of the product.
    pub name: String,
    /// A description for this product.
    pub description: String,
    /// Price in the currency's subunit (kobo, pesewas or cents).
    pub price: i128,
    /// Currency in which the price is set.
    pub currency: Currency,
    /// True when the product has limited stock.
    pub limited: Option<bool>,
    /// Number of products in stock, when limited.
    pub quantity: Option<i128>,
}

impl UpdateProductsBody {
    /// The members of the serialized JSON body, in declaration order.
    pub open spec fn json_fields(self) -> Seq<(Seq<char>, Seq<char>)> {
        seq![
            ("name"@, jstr(self.name@)),
            ("description"@, jstr(self.description@)),
            ("price"@, dec_int(self.price as int)),
            ("currency"@, jstr(self.currency.spec_code())),
            ("limited"@, jopt_bool(self.limited)),
            ("quantity"@, jopt_int(self.quantity)),
        ]
    }

    /// Serializes the body to its JSON text.
    pub fn to_json(&self) -> (r: String)
        ensures
            r@ == obj_ser(self.json_fields()),
    {
        let mut o = JsonObj::new();
        o.field_str("name", self.name.as_str());
        o.field_str("description", self.description.as_str());
        o.field_int("price", self.price);
        o.field_str("currency", self.currency.code());
        o.field_opt_bool("limited", &self.limited);
        o.field_opt_int("quantity", &self.quantity);
        proof {
            assert(o@ =~~= self.json_fields());
        }
        o.finish()
    }
}

impl Products {
    /// Builds the request that creates a product.
    pub fn create_products(&self, body: CreateProductBody) -> (r: HttpRequest)
        ensures
            r@ == body_request(
                Method::Post,
                self.bearer(),
                "https://api.paystack.co/product"@,
                obj_ser(body.json_fields()),
            ),
    {
        let url = String::from_str("https://api.paystack.co/product");
        let serialized = body.to_json();
        make_request(self.bearer_auth.clone(), url, Option::Some(serialized), Method::Post)
    }

    /// Builds the request that lists products.
    pub fn list_products(&self, params: Option<ListProductsParams>) -> (r: HttpRequest)
        requires
            match params {
                Option::Some(p) => p.wf(),
                Option::None => true,
            },
        ensures
            r@ == get_request(
                self.bearer(),
                "https://api.paystack.co/product"@ + "?"@ + (match params {
                    Option::Some(p) => pairs_text(p.query_pairs()),
                    Option::None => Seq::empty(),
                }),
            ),
    {
        let url = String::from_str("https://api.paystack.co/product");
        let query_text = match &params {
            Option::Some(p) => Option::Some(p.to_query()),
            Option::None => Option::None,
        };
        let r = make_get_request(self.bearer_auth.clone(), url, query_text);
        proof {
            assert(r@.url =~= "https://api.paystack.co/product"@ + "?"@ + (match params {
                    Option::Some(p) => pairs_text(p.query_pairs()),
                    Option::None => Seq::empty(),
                }));
        }
        r
    }

    /// Builds the request that fetches one product.
    pub fn fetch_products(&self, id: String) -> (r: HttpRequest)
        ensures
            r@ == get_request(
                self.bearer(),
                "https://api.paystack.co/product/"@ + id@ + "?"@,
            ),
    {
        let mut url = String::from_str("https://api.paystack.co/product/");
        url.append(id.as_str());
        let query_text = Option::None;
        let r = make_get_request(self.bearer_auth.clone(), url, query_text);
        proof {
            assert(r@.url =~= "https://api.paystack.co/product/"@ + id@ + "?"@);
        }
        r
    }

    /// Builds the request that updates a product.
    pub fn update_products(&self, id: String, body: UpdateProductsBody) -> (r: HttpRequest)
        ensures
            r@ == body_request(
                Method::Put,
                self.bearer(),
                "https://api.paystack.co/product/"@ + id@,
                obj_ser(body.json_fields()),
            ),
    {
        let mut url = String::from_str("https://api.paystack.co/product/");
        url.append(id.as_str());
        let serialized = body.to_json();
        make_request(self.bearer_auth.clone(), url, Option::Some(serialized), Method::Put)
    }
}

} // verus!
