//! What the dispatch engine asks of the network worker, and what comes back.

use crate::cursor::{CursorView, GraphQLCursor, PageInfo, PageInfoView};
use crate::filter::{CustomView, CustomViewView};
use crate::issue_op::IssueModificationOp;
use crate::types::{
    Issue, IssueRelatableObject, IssueView, LinearConfig, LinearConfigView, RelatableView, User,
    UserView,
};
use vstd::prelude::*;

verus! {

/// A request to the network worker.
#[derive(Debug, PartialEq, Eq)]
pub enum IOEvent {
    /// Ask who `api_key` belongs to.
    LoadViewer { api_key: String },
    /// Ask for the next page of saved views.
    LoadCustomViews { linear_config: LinearConfig, linear_cursor: GraphQLCursor },
    /// Ask for a page of the issues of `view`. With `append` the page goes
    /// behind what the view's panels hold, without it in their place.
    LoadViewIssues {
        linear_config: LinearConfig,
        view: CustomView,
        view_loader: Option<GraphQLCursor>,
        append: bool,
    },
    /// Ask for the next page of the values that the field of `op` can take
    /// in team `team`.
    LoadOpData {
        op: IssueModificationOp,
        linear_config: LinearConfig,
        linear_cursor: GraphQLCursor,
        team: String,
    },
    /// Set the field of `op` of issue `issue_id` to the value with
    /// identifier `ref_id`.
    UpdateIssue {
        op: IssueModificationOp,
        linear_config: LinearConfig,
        issue_id: String,
        ref_id: String,
        value: IssueRelatableObject,
    },
}

/// The view of [`IOEvent`]: what it holds, as mathematical values.
pub enum IOEventView {
    LoadViewer { api_key: Seq<char> },
    LoadCustomViews { linear_config: LinearConfigView, linear_cursor: CursorView },
    LoadViewIssues {
        linear_config: LinearConfigView,
        view: CustomViewView,
        view_loader: Option<CursorView>,
        append: bool,
    },
    LoadOpData {
        op: IssueModificationOp,
        linear_config: LinearConfigView,
        linear_cursor: CursorView,
        team: Seq<char>,
    },
    UpdateIssue {
        op: IssueModificationOp,
        linear_config: LinearConfigView,
        issue_id: Seq<char>,
        ref_id: Seq<char>,
        value: RelatableView,
    },
}

impl DeepView for IOEvent {
    type V = IOEventView;

    open spec fn deep_view(&self) -> IOEventView {
        match self {
            IOEvent::LoadViewer { api_key } => IOEventView::LoadViewer { api_key: api_key@ },
            IOEvent::LoadCustomViews { linear_config, linear_cursor } => IOEventView::LoadCustomViews {
                linear_config: linear_config@,
                linear_cursor: linear_cursor@,
            },
            IOEvent::LoadViewIssues { linear_config, view, view_loader, append } => {
                IOEventView::LoadViewIssues {
                    linear_config: linear_config@,
                    view: view@,
                    view_loader: view_loader.deep_view(),
                    append: *append,
                }
            },
            IOEvent::LoadOpData { op, linear_config, linear_cursor, team } => IOEventView::LoadOpData {
                op: *op,
                linear_config: linear_config@,
                linear_cursor: linear_cursor@,
                team: team@,
            },
            IOEvent::UpdateIssue { op, linear_config, issue_id, ref_id, value } => {
                IOEventView::UpdateIssue {
                    op: *op,
                    linear_config: linear_config@,
                    issue_id: issue_id@,
                    ref_id: ref_id@,
                    value: value@,
                }
            },
        }
    }
}

impl View for IOEvent {
    type V = IOEventView;

    open spec fn view(&self) -> IOEventView {
        self.deep_view()
    }
}

impl IOEventView {
    /// Whether the request asks for issues of a view.
    pub open spec fn loads_issues(self) -> bool {
        self is LoadViewIssues
    }
}

/// What one fetch of a new panel needs: the configuration, the view, and the
/// cursor to start from.
#[derive(Debug, PartialEq, Eq)]
pub struct ViewLoadBundle {
    pub linear_config: LinearConfig,
    pub item_filter: CustomView,
    pub loader: Option<GraphQLCursor>,
}

/// The view of [`ViewLoadBundle`]: what it holds, as mathematical values.
pub struct BundleView {
    pub linear_config: LinearConfigView,
    pub item_filter: CustomViewView,
    pub loader: Option<CursorView>,
}

impl BundleView {
    /// The request that carries the bundle to the network worker.
    pub open spec fn request(self) -> IOEventView {
        IOEventView::LoadViewIssues {
            linear_config: self.linear_config,
            view: self.item_filter,
            view_loader: self.loader,
            append: false,
        }
    }
}

impl DeepView for ViewLoadBundle {
    type V = BundleView;

    open spec fn deep_view(&self) -> BundleView {
        BundleView {
            linear_config: self.linear_config@,
            item_filter: self.item_filter@,
            loader: self.loader.deep_view(),
        }
    }
}

impl View for ViewLoadBundle {
    type V = BundleView;

    open spec fn view(&self) -> BundleView {
        self.deep_view()
    }
}

impl ViewLoadBundle {
    /// The request that carries the bundle to the network worker.
    pub fn request(&self) -> (res: IOEvent)
        ensures
            res@ == self@.request(),
    {
        IOEvent::LoadViewIssues {
            linear_config: self.linear_config.clone(),
            view: self.item_filter.clone(),
            view_loader: match &self.loader {
                Some(cursor) => Some(cursor.clone()),
                None => None,
            },
            append: false,
        }
    }
}

/// The answer to `LoadViewer`.
#[derive(Debug, PartialEq, Eq)]
pub struct ViewerAnswer {
    /// Whether the service reported an error.
    pub error: bool,
    /// The user that the key belongs to, if the answer named one.
    pub viewer: Option<User>,
}

/// The view of [`ViewerAnswer`]: what it holds, as mathematical values.
pub struct ViewerAnswerView {
    pub error: bool,
    pub viewer: Option<UserView>,
}

impl DeepView for ViewerAnswer {
    type V = ViewerAnswerView;

    open spec fn deep_view(&self) -> ViewerAnswerView {
        ViewerAnswerView { error: self.error, viewer: self.viewer.deep_view() }
    }
}

impl View for ViewerAnswer {
    type V = ViewerAnswerView;

    open spec fn view(&self) -> ViewerAnswerView {
        self.deep_view()
    }
}

/// The answer to `LoadCustomViews`.
#[derive(Debug, PartialEq, Eq)]
pub struct CustomViewsPage {
    /// The views of the page; `None` when the answer held no list.
    pub views: Option<Vec<CustomView>>,
    pub cursor_info: PageInfo,
}

/// The view of [`CustomViewsPage`]: what it holds, as mathematical values.
pub struct CustomViewsPageView {
    pub views: Option<Seq<CustomViewView>>,
    pub cursor_info: PageInfoView,
}

impl DeepView for CustomViewsPage {
    type V = CustomViewsPageView;

    open spec fn deep_view(&self) -> CustomViewsPageView {
        CustomViewsPageView { views: self.views.deep_view(), cursor_info: self.cursor_info@ }
    }
}

impl View for CustomViewsPage {
    type V = CustomViewsPageView;

    open spec fn view(&self) -> CustomViewsPageView {
        self.deep_view()
    }
}

/// The answer to `LoadViewIssues`: the records, the cursor to go on from,
/// and the number of queries it took.
#[derive(Debug, PartialEq, Eq)]
pub struct ViewIssues {
    pub issues: Vec<Issue>,
    pub cursor: GraphQLCursor,
    pub request_num: u32,
}

/// The view of [`ViewIssues`]: what it holds, as mathematical values.
pub struct ViewIssuesView {
    pub issues: Seq<IssueView>,
    pub cursor: CursorView,
    pub request_num: u32,
}

impl DeepView for ViewIssues {
    type V = ViewIssuesView;

    open spec fn deep_view(&self) -> ViewIssuesView {
        ViewIssuesView {
            issues: self.issues.deep_view(),
            cursor: self.cursor@,
            request_num: self.request_num,
        }
    }
}

impl View for ViewIssues {
    type V = ViewIssuesView;

    open spec fn view(&self) -> ViewIssuesView {
        self.deep_view()
    }
}

/// The answer to `UpdateIssue`.
#[derive(Debug, Clone, Copy, PartialEq, Eq, Structural)]
pub struct UpdateAnswer {
    /// What the service said of the update; `None` when it said nothing.
    pub success: Option<bool>,
}

impl UpdateAnswer {
    /// Whether the service confirmed the update.
    pub open spec fn confirmed(answer: Option<UpdateAnswer>) -> bool {
        answer matches Some(a) && a.success == Some(true)
    }
}

} // verus!
