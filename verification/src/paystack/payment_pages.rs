//! The Payment Pages API: hosted pages that collect payments.

use vstd::prelude::*;
use crate::datetime::{UtcDateTime, opt_date_pair};
use crate::json::{
    Json, JsonObj, jarr_int, jopt_arr, jopt_bool, jopt_int, jopt_json, jopt_str, jstr,
    obj_ser, render_arr_int,
};
use crate::request::{
    HttpRequest, Method, body_request, get_request, make_get_request, make_request,
};
use crate::text::{dec_int, push_i128};
use crate::urlenc::{QueryString, opt_int_pair, pairs_text};

verus! {

/// A client for creating and managing payment pages.
#[derive(Debug, Default)]
pub struct PaymentPages {
    pub(crate) bearer_auth: String,
}

impl PaymentPages {
    /// The bearer authorization text this resource sends.
    pub closed spec fn bearer(self) -> Seq<char> {
        self.bearer_auth@
    }

    /// Binds the resource client to the authorization header it sends.
    pub fn with_auth(bearer_auth: String) -> (r: PaymentPages)
        ensures
            r.bearer() == bearer_auth@,
    {
        PaymentPages { bearer_auth }
    }
}

/// The body of a request to create a payment page.
#[derive(Debug, Default)]
pub struct CreatePaymentPagesBody {
    /// Name of the page.
    pub name: String,
    /// A description for this page.
    pub description: Option<String>,
    /// Amount in the currency's subunit (kobo, pesewas or cents).
    pub amount: Option<i128>,
    /// URL slug; the page is served under `/pay/` and that slug.
    pub slug: Option<String>,
    /// Extra configuration for the page.
    pub metadata: Option<Json>,
    /// Where to redirect after a successful payment.
    pub redirect_url: Option<String>,
    /// Custom fields to accept on the page.
    pub custom_fields: Option<Vec<Json>>,
}

impl CreatePaymentPagesBody {
    /// The members of the serialized JSON body, in declaration order.
    pub open spec fn json_fields(self) -> Seq<(Seq<char>, Seq<char>)> {
        seq![
            ("name"@, jstr(self.name@)),
            ("description"@, jopt_str(self.description)),
            ("amount"@, jopt_int(self.amount)),
            ("slug"@, jopt_str(self.slug)),
            ("metadata"@, jopt_json(self.metadata)),
            ("redirect_url"@, jopt_str(self.redirect_url)),
            ("custom_fields"@, jopt_arr(self.custom_fields)),
        ]
    }

    /// Serializes the body to its JSON text.
    pub fn to_json(&self) -> (r: String)
        ensures
            r@ == obj_ser(self.json_fields()),
    {
        let mut o = JsonObj::new();
        o.field_str("name", self.name.as_str());
        o.field_opt_str("description", &self.description);
        o.field_opt_int("amount", &self.amount);
        o.field_opt_str("slug", &self.slug);
        o.field_opt_json("metadata", &self.metadata);
        o.field_opt_str("redirect_url", &self.redirect_url);
        o.field_opt_arr("custom_fields", &self.custom_fields);
        proof {
            assert(o@ =~~= self.json_fields());
        }
        o.finish()
    }
}

/// The query parameters of a request to list payment pages.
#[derive(Debug, Default)]
pub struct ListPagesParams {
    /// Records per page; the remote default is 50.
    pub per_page: Option<i128>,
    /// Page to retrieve; the remote default is 1.
    pub page: Option<i128>,
    /// List pages from this timestamp on.
    pub from: Option<UtcDateTime>,
    /// List pages up to this timestamp.
    pub to: Option<UtcDateTime>,
}

impl ListPagesParams {
    /// Every timestamp present lies in its calendar range.
    pub open spec fn wf(self) -> bool {
        &&& match self.from {
            Option::Some(d) => d.wf(),
            Option::None => true,
        }
        &&& match self.to {
            Option::Some(d) => d.wf(),
            Option::None => true,
        }
    }

    /// The key/value pairs of the query string, in declaration
    /// order; absent parameters contribute nothing.
    pub open spec fn query_pairs(self) -> Seq<(Seq<char>, Seq<char>)> {
        opt_int_pair("perPage"@, self.per_page)
                + opt_int_pair("page"@, self.page)
                + opt_date_pair("from"@, self.from)
                + opt_date_pair("to"@, self.to)
    }

    /// Encodes the parameters as a query string.
    #[verifier::rlimit(100)]
    pub fn to_query(&self) -> (r: String)
        requires
            self.wf(),
        ensures
            r@ == pairs_text(self.query_pairs()),
    {
        let mut q = QueryString::new();
        match &self.per_page {
            Option::Some(v) => q.pair_int("perPage", *v),
            Option::None => (),
        }
        match &self.page {
            Option::Some(v) => q.pair_int("page", *v),
            Option::None => (),
        }
        match &self.from {
            Option::Some(d) => {
                let t = d.to_rfc3339();
                q.pair_str("from", t.as_str());
            },
            Option::None => (),
        }
        match &self.to {
            Option::Some(d) => {
                let t = d.to_rfc3339();
                q.pair_str("to", t.as_str());
            },
            Option::None => (),
        }
        proof {
            assert(q@ =~~= self.query_pairs());
        }
        q.finish()
    }
}

/// The body of a request to update a payment page.
#[derive(Debug, Default)]
pub struct UpdatePageBody {
    /// Name of the page.
    pub name: String,
    /// A description for this page.
    pub description: Option<String>,
    /// Default amount to accept; any amount when absent.
    pub amount: Option<i128>,
    /// Set to false to deactivate the page URL.
    pub active: Option<bool>,
}

impl UpdatePageBody {
    /// The members of the serialized JSON body, in declaration order.
    pub open spec fn json_fields(self) -> Seq<(Seq<char>, Seq<char>)> {
        seq![
            ("name"@, jstr(self.name@)),
            ("description"@, jopt_str(self.description)),
            ("amount"@, jopt_int(self.amount)),
            ("active"@, jopt_bool(self.active)),
        ]
    }

    /// Serializes the body to its JSON text.
    pub fn to_json(&self) -> (r: String)
        ensures
            r@ == obj_ser(self.json_fields()),
    {
        let mut o = JsonObj::new();
        o.field_str("name", self.name.as_str());
        o.field_opt_str("description", &self.description);
        o.field_opt_int("amount", &self.amount);
        o.field_opt_bool("active", &self.active);
        proof {
            assert(o@ =~~= self.json_fields());
        }
        o.finish()
    }
}

/// The body of a request that adds products to a page.
#[derive(Debug, Default)]
pub struct AddProductsBody {
    /// IDs of the products to add.
    pub product: Vec<i128>,
}

impl AddProductsBody {
    /// The members of the serialized JSON body, in declaration order.
    pub open spec fn json_fields(self) -> Seq<(Seq<char>, Seq<char>)> {
        seq![
            ("product"@, jarr_int(self.product@)),
        ]
    }

    /// Serializes the body to its JSON text.
    pub fn to_json(&self) -> (r: String)
        ensures
            r@ == obj_ser(self.json_fields()),
    {
        let mut o = JsonObj::new();
        let rendered_product = render_arr_int(&self.product);
        o.field_pre("product", rendered_product.as_str());
        proof {
            assert(o@ =~~= self.json_fields());
        }
        o.finish()
    }
}

impl PaymentPages {
    /// Builds the request that creates a payment page.
    pub fn create_pages(&self, body: CreatePaymentPagesBody) -> (r: HttpRequest)
        ensures
            r@ == body_request(
                Method::Post,
                self.bearer(),
                "https://api.paystack.co/page"@,
                obj_ser(body.json_fields()),
            ),
    {
        let url = String::from_str("https://api.paystack.co/page");
        let serialized = body.to_json();
        make_request(self.bearer_auth.clone(), url, Option::Some(serialized), Method::Post)
    }

    /// Builds the request that lists payment pages.
    pub fn list_pages(&self, params: Option<ListPagesParams>) -> (r: HttpRequest)
        requires
            match params {
                Option::Some(p) => p.wf(),
                Option::None => true,
            },
        ensures
            r@ == get_request(
                self.bearer(),
                "https://api.paystack.co/page"@ + "?"@ + (match params {
                    Option::Some(p) => pairs_text(p.query_pairs()),
                    Option::None => Seq::empty(),
                }),
            ),
    {
        let url = String::from_str("https://api.paystack.co/page");
        let query_text = match &params {
            Option::Some(p) => Option::Some(p.to_query()),
            Option::None => Option::None,
        };
        let r = make_get_request(self.bearer_auth.clone(), url, query_text);
        proof {
            assert(r@.url =~= "https://api.paystack.co/page"@ + "?"@ + (match params {
                    Option::Some(p) => pairs_text(p.query_pairs()),
                    Option::None => Seq::empty(),
                }));
        }
        r
    }

    /// Builds the request that fetches one payment page.
    pub fn fetch_page(&self, id_or_slug: &str) -> (r: HttpRequest)
        ensures
            r@ == get_request(
                self.bearer(),
                "https://api.paystack.co/page/"@ + id_or_slug@ + "?"@,
            ),
    {
        let mut url = String::from_str("https://api.paystack.co/page/");
        url.append(id_or_slug);
        let query_text = Option::None;
        let r = make_get_request(self.bearer_auth.clone(), url, query_text);
        proof {
            assert(r@.url =~= "https://api.paystack.co/page/"@ + id_or_slug@ + "?"@);
        }
        r
    }

    /// Builds the request that updates a payment page.
    pub fn update_page(&self, id_or_slug: &str, body: UpdatePageBody) -> (r: HttpRequest)
        ensures
            r@ == body_request(
                Method::Post,
                self.bearer(),
                "https://api.paystack.co/page/"@ + id_or_slug@,
                obj_ser(body.json_fields()),
            ),
    {
        let mut url = String::from_str("https://api.paystack.co/page/");
        url.append(id_or_slug);
        let serialized = body.to_json();
        make_request(self.bearer_auth.clone(), url, Option::Some(serialized), Method::Post)
    }

    /// Builds the request that checks whether a slug is free.
    pub fn check_slug_availability(&self, slug: &str) -> (r: HttpRequest)
        ensures
            r@ == get_request(
                self.bearer(),
                "https://api.paystack.co/page/check_slug_availability/"@ + slug@ + "?"@,
            ),
    {
        let mut url = String::from_str("https://api.paystack.co/page/check_slug_availability/");
        url.append(slug);
        let query_text = Option::None;
        let r = make_get_request(self.bearer_auth.clone(), url, query_text);
        proof {
            assert(r@.url =~= "https://api.paystack.co/page/check_slug_availability/"@ + slug@ + "?"@);
        }
        r
    }

    /// Builds the request that adds products to a page.
    pub fn add_products(&self, id: i128, body: AddProductsBody) -> (r: HttpRequest)
        ensures
            r@ == body_request(
                Method::Post,
                self.bearer(),
                "https://api.paystack.co/page/"@ + dec_int(id as int) + "/product"@,
                obj_ser(body.json_fields()),
            ),
    {
        let mut url = String::from_str("https://api.paystack.co/page/");
        push_i128(&mut url, id as i128);
        url.append("/product");
        let serialized = body.to_json();
        make_request(self.bearer_auth.clone(), url, Option::Some(serialized), Method::Post)
    }
}

} // verus!
