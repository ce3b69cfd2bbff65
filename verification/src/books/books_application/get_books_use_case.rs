//! Listing the books page by page.

use vstd::prelude::*;

verus! {

/// Which page of the list is asked for.
#[derive(Debug, Clone)]
pub struct GetBooksDto {
    pub page: u32,
    pub page_size: u8,
}

/// The page that is shown where none is asked for.
pub fn default_page() -> (page: u32)
    ensures
        page == 1,
{
    1
}

/// The number of books on a page where none is asked for.
pub fn default_page_size() -> (page_size: u8)
    ensures
        page_size == 10,
{
    10
}

} // verus!
