//! Pagination cursors.

use crate::text::clone_opt_text;
use vstd::prelude::*;

verus! {

/// The service a cursor was issued by.
#[derive(Debug, Clone, Copy, PartialEq, Eq, Structural)]
pub enum Platform {
    Na,
    Linear,
    Github,
}

/// The `pageInfo` fragment of a list response; a field is `None` when the
/// response lacked it or carried a value of the wrong type.
#[derive(Debug, PartialEq, Eq)]
pub struct PageInfo {
    pub has_next_page: Option<bool>,
    pub end_cursor: Option<String>,
}

/// The view of [`PageInfo`]: what it holds, as mathematical values.
pub struct PageInfoView {
    pub has_next_page: Option<bool>,
    pub end_cursor: Option<Seq<char>>,
}

impl DeepView for PageInfo {
    type V = PageInfoView;

    open spec fn deep_view(&self) -> PageInfoView {
        PageInfoView {
            has_next_page: self.has_next_page,
            end_cursor: self.end_cursor.deep_view(),
        }
    }
}

impl View for PageInfo {
    type V = PageInfoView;

    open spec fn view(&self) -> PageInfoView {
        self.deep_view()
    }
}

impl Clone for PageInfo {
    fn clone(&self) -> (res: Self)
        ensures
            res == *self,
    {
        PageInfo {
            has_next_page: match &self.has_next_page {
                Some(more) => Some(*more),
                None => None,
            },
            end_cursor: clone_opt_text(&self.end_cursor),
        }
    }
}

/// Continuation state of one paginated query.
#[derive(Debug, PartialEq, Eq)]
pub struct GraphQLCursor {
    pub platform: Platform,
    pub has_next_page: bool,
    pub end_cursor: String,
}

/// The view of [`GraphQLCursor`]: what it holds, as mathematical values.
pub struct CursorView {
    pub platform: Platform,
    pub has_next_page: bool,
    pub end_cursor: Seq<char>,
}

impl CursorView {
    /// The cursor a sequence starts from: no platform yet, nothing fetched.
    pub open spec fn start() -> CursorView {
        CursorView { platform: Platform::Na, has_next_page: false, end_cursor: Seq::empty() }
    }

    /// A cursor is exhausted once its own platform reported that no page follows.
    pub open spec fn is_exhausted(self) -> bool {
        self.platform == Platform::Linear && !self.has_next_page
    }

    /// The cursor that a page-info fragment describes, if the fragment is complete.
    pub open spec fn advance(page_info: PageInfoView) -> Option<CursorView> {
        match (page_info.has_next_page, page_info.end_cursor) {
            (Some(more), Some(token)) => Some(
                CursorView { platform: Platform::Linear, has_next_page: more, end_cursor: token },
            ),
            _ => None,
        }
    }
}

impl DeepView for GraphQLCursor {
    type V = CursorView;

    open spec fn deep_view(&self) -> CursorView {
        CursorView {
            platform: self.platform,
            has_next_page: self.has_next_page,
            end_cursor: self.end_cursor@,
        }
    }
}

impl View for GraphQLCursor {
    type V = CursorView;

    open spec fn view(&self) -> CursorView {
        self.deep_view()
    }
}

impl Clone for GraphQLCursor {
    fn clone(&self) -> (res: Self)
        ensures
            res == *self,
    {
        GraphQLCursor {
            platform: self.platform,
            has_next_page: self.has_next_page,
            end_cursor: self.end_cursor.clone(),
        }
    }
}

impl Default for GraphQLCursor {
    fn default() -> (res: Self)
        ensures
            res@ == CursorView::start(),
    {
        GraphQLCursor { platform: Platform::Na, has_next_page: false, end_cursor: String::new() }
    }
}

impl GraphQLCursor {
    /// Builds the cursor for the page after the one `page_info` came with.
    pub fn linear_cursor_from_page_info(page_info: &PageInfo) -> (res: Option<GraphQLCursor>)
        ensures
            res.deep_view() == CursorView::advance(page_info@),
    {
        match (&page_info.has_next_page, &page_info.end_cursor) {
            (Some(more), Some(token)) => Some(
                GraphQLCursor {
                    platform: Platform::Linear,
                    has_next_page: *more,
                    end_cursor: token.clone(),
                },
            ),
            _ => None,
        }
    }

    /// Whether the service said that no page follows this cursor.
    pub fn is_exhausted(&self) -> (res: bool)
        ensures
            res == self@.is_exhausted(),
    {
        self.platform == Platform::Linear && !self.has_next_page
    }
}

} // verus!
