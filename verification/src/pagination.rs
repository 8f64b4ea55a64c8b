use vstd::prelude::*;

use crate::decimal::{decimal_seq, u32_string, u64_string};

verus! {

/// The decoded body of a cursor-paginated list response: opaque continuation
/// URLs and the items, with no count or position metadata.
#[derive(Debug, Clone, PartialEq)]
pub struct CursorEnvelope<T> {
    pub next: Option<String>,
    pub previous: Option<String>,
    pub results: Vec<T>,
}

/// The decoded body of a page-paginated list response: continuation URLs,
/// the items, the total count across all pages and the 1-based page number.
#[derive(Debug, Clone, PartialEq)]
pub struct PageEnvelope<T> {
    pub next: Option<String>,
    pub previous: Option<String>,
    pub results: Vec<T>,
    pub total_count: u32,
    pub current_page: u32,
}

/// One page of a result set under cursor pagination: traversal is driven
/// entirely by the opaque continuation URLs.
#[derive(Debug, Clone, PartialEq)]
pub struct CursorPaginatedResource<T> {
    pub next_url: Option<String>,
    pub previous_url: Option<String>,
    pub resource_class: String,
    pub results: Vec<T>,
}

impl<T> CursorPaginatedResource<T> {
    /// The page that one traversal step builds from the continuation
    /// envelope `env`: every field comes from the envelope except the
    /// resource-kind tag, which is kept unchanged.
    pub open spec fn spec_follow(self, env: CursorEnvelope<T>) -> CursorPaginatedResource<T> {
        CursorPaginatedResource {
            next_url: env.next,
            previous_url: env.previous,
            resource_class: self.resource_class,
            results: env.results,
        }
    }

    /// The URL a forward step must fetch; `None` is the normal terminal
    /// condition, never an error, and no request is owed.
    pub fn next_request(&self) -> (r: Option<String>)
        ensures
            r is Some <==> self.next_url is Some,
            r matches Some(u) ==> (self.next_url matches Some(v) && u@ == v@),
    {
        match &self.next_url {
            Some(u) => Some(u.clone()),
            None => None,
        }
    }

    /// The URL a backward step must fetch; `None` is the normal terminal
    /// condition, never an error, and no request is owed.
    pub fn previous_request(&self) -> (r: Option<String>)
        ensures
            r is Some <==> self.previous_url is Some,
            r matches Some(u) ==> (self.previous_url matches Some(v) && u@ == v@),
    {
        match &self.previous_url {
            Some(u) => Some(u.clone()),
            None => None,
        }
    }

    /// Builds the adjacent page from a fetched continuation envelope,
    /// carrying the resource-kind tag over unchanged.
    pub fn follow(&self, env: CursorEnvelope<T>) -> (r: Self)
        ensures
            r == self.spec_follow(env),
    {
        CursorPaginatedResource {
            next_url: env.next,
            previous_url: env.previous,
            resource_class: self.resource_class.clone(),
            results: env.results,
        }
    }

    /// A short description of the page, naming the resource kind and how
    /// many items it holds.
    pub fn describe(&self) -> (r: String)
        ensures
            r@ == "CursorPaginatedResource(resource_class="@ + self.resource_class@ + ", results="@
                + decimal_seq(self.results@.len()) + ")"@,
    {
        let count = u64_string(self.results.len() as u64);
        String::from_str("CursorPaginatedResource(resource_class=").concat(
            self.resource_class.as_str(),
        ).concat(", results=").concat(count.as_str()).concat(")")
    }
}

/// One page of a result set under page-number pagination, with the total
/// item count across all pages and this page's 1-based number.
#[derive(Debug, Clone, PartialEq)]
pub struct PagePaginatedResource<T> {
    pub next_url: Option<String>,
    pub previous_url: Option<String>,
    pub resource_class: String,
    pub total_count: u32,
    pub current_page: u32,
    pub results: Vec<T>,
}

impl<T> PagePaginatedResource<T> {
    /// The page that one traversal step builds from the continuation
    /// envelope `env`: every field comes from the envelope except the
    /// resource-kind tag, which is kept unchanged.
    pub open spec fn spec_follow(self, env: PageEnvelope<T>) -> PagePaginatedResource<T> {
        PagePaginatedResource {
            next_url: env.next,
            previous_url: env.previous,
            resource_class: self.resource_class,
            total_count: env.total_count,
            current_page: env.current_page,
            results: env.results,
        }
    }

    /// The URL a forward step must fetch; `None` is the normal terminal
    /// condition, never an error, and no request is owed.
    pub fn next_request(&self) -> (r: Option<String>)
        ensures
            r is Some <==> self.next_url is Some,
            r matches Some(u) ==> (self.next_url matches Some(v) && u@ == v@),
    {
        match &self.next_url {
            Some(u) => Some(u.clone()),
            None => None,
        }
    }

    /// The URL a backward step must fetch; `None` is the normal terminal
    /// condition, never an error, and no request is owed.
    pub fn previous_request(&self) -> (r: Option<String>)
        ensures
            r is Some <==> self.previous_url is Some,
            r matches Some(u) ==> (self.previous_url matches Some(v) && u@ == v@),
    {
        match &self.previous_url {
            Some(u) => Some(u.clone()),
            None => None,
        }
    }

    /// Builds the adjacent page from a fetched continuation envelope,
    /// carrying the resource-kind tag over unchanged.
    pub fn follow(&self, env: PageEnvelope<T>) -> (r: Self)
        ensures
            r == self.spec_follow(env),
    {
        PagePaginatedResource {
            next_url: env.next,
            previous_url: env.previous,
            resource_class: self.resource_class.clone(),
            total_count: env.total_count,
            current_page: env.current_page,
            results: env.results,
        }
    }

    /// A short description of the page, naming the resource kind, the total
    /// count, the page number and how many items this page holds.
    pub fn describe(&self) -> (r: String)
        ensures
            r@ == "PagePaginatedResource(resource_class="@ + self.resource_class@
                + ", total_count="@ + decimal_seq(self.total_count as nat) + ", current_page="@
                + decimal_seq(self.current_page as nat) + ", results="@ + decimal_seq(
                self.results@.len(),
            ) + ")"@,
    {
        let total = u32_string(self.total_count);
        let page = u32_string(self.current_page);
        let count = u64_string(self.results.len() as u64);
        String::from_str("PagePaginatedResource(resource_class=").concat(
            self.resource_class.as_str(),
        ).concat(", total_count=").concat(total.as_str()).concat(", current_page=").concat(
            page.as_str(),
        ).concat(", results=").concat(count.as_str()).concat(")")
    }
}

/// Builds a page envelope from the fields of a dynamically decoded
/// continuation response: an absent or non-integral count or page number
/// falls back to 0, and an oversized one keeps its low 32 bits.
pub fn page_envelope_from_fields<T>(
    next: Option<String>,
    previous: Option<String>,
    total_count: Option<u64>,
    current_page: Option<u64>,
    results: Vec<T>,
) -> (e: PageEnvelope<T>)
    ensures
        e.next == next,
        e.previous == previous,
        e.results == results,
        e.total_count as int == (match total_count {
            Some(v) => v as int % 0x1_0000_0000,
            None => 0int,
        }),
        e.current_page as int == (match current_page {
            Some(v) => v as int % 0x1_0000_0000,
            None => 0int,
        }),
{
    let tc: u32 = match total_count {
        Some(v) => (v % 0x1_0000_0000) as u32,
        None => 0,
    };
    let cp: u32 = match current_page {
        Some(v) => (v % 0x1_0000_0000) as u32,
        None => 0,
    };
    PageEnvelope { next, previous, results, total_count: tc, current_page: cp }
}

/// Stepping forward to the page behind the "next" reference and then back to
/// the one behind "previous" returns to the starting page: as long as the
/// collection is stable — the page fetched on the way back reports the page
/// number the traversal started from — the round trip restores the original
/// page number, and the resource-kind tag is preserved across both hops.
pub proof fn lemma_page_round_trip<T>(
    page: PagePaginatedResource<T>,
    forward: PageEnvelope<T>,
    back: PageEnvelope<T>,
)
    requires
        back.current_page == page.current_page,
    ensures
        page.spec_follow(forward).spec_follow(back).current_page == page.current_page,
        page.spec_follow(forward).spec_follow(back).resource_class == page.resource_class,
{
}

/// The resource-kind tag never changes across any chain of traversal steps:
/// one step keeps it, in either direction and under either pagination
/// strategy.
pub proof fn lemma_kind_tag_preserved<T>(
    page: PagePaginatedResource<T>,
    env: PageEnvelope<T>,
    cursor: CursorPaginatedResource<T>,
    cursor_env: CursorEnvelope<T>,
)
    ensures
        page.spec_follow(env).resource_class == page.resource_class,
        cursor.spec_follow(cursor_env).resource_class == cursor.resource_class,
{
}

} // verus!
