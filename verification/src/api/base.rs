//! The common response envelope of the REST API, and the library's error
//! type.

use crate::api::transaction::TransactionQueryError;
use crate::streaming::encode::{push_dec, push_json_string, spec_dec, spec_json_string};
use vstd::prelude::*;

verus! {

/// A top-level API response: either a successful envelope or an error
/// payload.
#[derive(Debug)]
pub enum TastyApiResponse<T> {
    Success(Response<T>),
    Error { error: ApiError },
}

/// The successful response envelope.
#[derive(Debug)]
pub struct Response<T> {
    pub data: T,
    pub context: Option<String>,
    pub pagination: Option<Pagination>,
}

/// Pagination metadata attached to list responses.
#[derive(Debug, Clone)]
pub struct Pagination {
    pub per_page: usize,
    pub page_offset: usize,
    pub item_offset: usize,
    pub total_items: usize,
    pub total_pages: usize,
    pub current_item_count: usize,
    pub previous_link: Option<String>,
    pub next_link: Option<String>,
    pub paging_link_template: Option<String>,
}

/// The `items` wrapper that list endpoints put around their elements.
#[derive(Debug)]
pub struct Items<T> {
    pub items: Vec<T>,
}

/// A page of items together with its pagination metadata.
pub struct Paginated<T> {
    pub items: Vec<T>,
    pub pagination: Pagination,
}

impl<T> Paginated<T> {
    /// Builds a page from a response envelope that carries pagination
    /// metadata; a list response without it is malformed, so the caller
    /// must have checked for it.
    pub fn from_tasty(resp: Response<Items<T>>) -> (r: Paginated<T>)
        requires
            resp.pagination is Some,
        ensures
            r.items == resp.data.items,
            resp.pagination matches Some(p) ==> r.pagination == p,
    {
        match resp.pagination {
            Option::Some(pagination) => Paginated { items: resp.data.items, pagination },
            Option::None => vstd::pervasive::unreached(),
        }
    }
}

/// An error payload returned by the API.
#[derive(Debug)]
pub struct ApiError {
    pub code: Option<String>,
    pub message: String,
    pub errors: Option<Vec<InnerApiError>>,
}

/// One nested error inside an [`ApiError`].
#[derive(Debug)]
pub struct InnerApiError {
    pub code: Option<String>,
    pub message: String,
}

/// The text `display_string` renders for an [`ApiError`]: the code in its
/// `Option` debug form, then the message.
pub open spec fn spec_api_error_display(code: Option<Seq<char>>, message: Seq<char>) -> Seq<char> {
    match code {
        Option::Some(c) => "Error Some("@ + spec_json_string(c) + "): "@ + message,
        Option::None => "Error None: "@ + message,
    }
}

impl ApiError {
    /// The error's display text, `Error <code>: <message>`.
    pub fn display_string(&self) -> (r: String)
        ensures
            r@ == spec_api_error_display(
                match self.code {
                    Option::Some(c) => Option::Some(c@),
                    Option::None => Option::None,
                },
                self.message@,
            ),
    {
        let mut out = String::new();
        match &self.code {
            Option::Some(c) => {
                out.append("Error Some(");
                push_json_string(&mut out, c.as_str());
                out.append("): ");
            },
            Option::None => {
                out.append("Error None: ");
            },
        }
        out.append(self.message.as_str());
        proof {
            assert(out@ =~= spec_api_error_display(
                match self.code {
                    Option::Some(c) => Option::Some(c@),
                    Option::None => Option::None,
                },
                self.message@,
            ));
        }
        out
    }
}

/// Everything that can go wrong in the library's own logic: a rejected
/// configuration, a rejected transaction query, an unexpected HTTP
/// response, or an API error payload.
#[derive(Debug)]
pub enum TastyError {
    Config(String),
    TransactionQuery(TransactionQueryError),
    UnexpectedResponse { status: u16, body: String },
    Api(ApiError),
}

impl TastyError {
    /// The error's display text.
    pub fn display_string(&self) -> (r: String)
        ensures
            self matches TastyError::Config(m) ==> r@ == m@,
            self matches TastyError::TransactionQuery(e) ==> r@ == e.spec_display(),
            self matches TastyError::UnexpectedResponse { status, body } ==> r@
                == "Unexpected response (status "@ + spec_dec(status as int) + "): "@ + body@,
            self is Api ==> r@ == "Tastyworks API error"@,
    {
        match self {
            TastyError::Config(m) => m.clone(),
            TastyError::TransactionQuery(e) => e.display_string(),
            TastyError::UnexpectedResponse { status, body } => {
                let mut out = String::new();
                out.append("Unexpected response (status ");
                push_dec(&mut out, *status as u64);
                out.append("): ");
                out.append(body.as_str());
                proof {
                    assert(out@ =~= "Unexpected response (status "@ + spec_dec(*status as int)
                        + "): "@ + body@);
                }
                out
            },
            TastyError::Api(_) => "Tastyworks API error".to_owned(),
        }
    }
}

/// The library's result type.
pub type Result<T> = core::result::Result<T, TastyError>;

} // verus!
