//! The requests that the engine answers, with the defaults of what a
//! request leaves out.

use crate::sql::OrderBy;
use vstd::prelude::*;

verus! {

/// The page that is served where a request names none.
pub const DEFAULT_PAGE: u32 = 1;

/// The number of rows on a page where a request names none.
pub const DEFAULT_PAGE_SIZE: u32 = 100;

/// Asks for the queries that are served.
#[derive(Debug, PartialEq)]
pub struct ListQueriesRequest {}

/// Asks for one page of a query.
#[derive(Debug, PartialEq)]
pub struct ExecQueryRequest {
    pub name: String,
    pub page: Option<u32>,
    pub page_size: Option<u32>,
    pub order_by: Option<Vec<OrderBy>>,
}

/// A request.
#[derive(Debug, PartialEq)]
pub enum RpcRequest {
    ListQueries,
    ExecQuery(ExecQueryRequest),
}

/// A request for one page of a query with nothing left out.
#[derive(Debug, PartialEq)]
pub struct PageRequest {
    pub name: String,
    pub page: u32,
    pub page_size: u32,
    pub order_by: Vec<OrderBy>,
}

impl ExecQueryRequest {
    /// The orderings that the request asks for: none where it names none.
    pub open spec fn orderings(self) -> Seq<OrderBy> {
        match self.order_by {
            Some(order_by) => order_by@,
            None => Seq::empty(),
        }
    }

    /// The page that the request asks for: the first where it names none.
    pub fn page(&self) -> (page: u32)
        ensures
            page == match self.page {
                Some(p) => p,
                None => DEFAULT_PAGE,
            },
    {
        match self.page {
            Some(page) => page,
            None => DEFAULT_PAGE,
        }
    }

    /// The number of rows on a page that the request asks for: a hundred
    /// where it names none.
    pub fn page_size(&self) -> (page_size: u32)
        ensures
            page_size == match self.page_size {
                Some(n) => n,
                None => DEFAULT_PAGE_SIZE,
            },
    {
        match self.page_size {
            Some(page_size) => page_size,
            None => DEFAULT_PAGE_SIZE,
        }
    }

    /// The request with its defaults filled in.
    pub fn with_defaults(self) -> (request: PageRequest)
        ensures
            request.name == self.name,
            request.page == match self.page {
                Some(p) => p,
                None => DEFAULT_PAGE,
            },
            request.page_size == match self.page_size {
                Some(n) => n,
                None => DEFAULT_PAGE_SIZE,
            },
            request.order_by@ == self.orderings(),
    {
        let page = self.page();
        let page_size = self.page_size();
        let order_by = match self.order_by {
            Some(order_by) => order_by,
            None => Vec::new(),
        };
        PageRequest { name: self.name, page, page_size, order_by }
    }
}

} // verus!
