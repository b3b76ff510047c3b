//! Taking in the answers of the network worker.
//!
//! Every answer gives back the loading guard that its request took, whether
//! the request succeeded or not. Data changes only on an answer that
//! succeeded and is well formed.

use crate::app::{App, AppView, CustomViewSelectView, TokenValidationState, UserInputView};
use crate::cursor::{CursorView, GraphQLCursor};
use crate::issue_op::{OpDataResponse, OpDataResponseView, OpInterfaceView};
use crate::panel::{
    all_can_count, can_all_count, patch_panels, patched_panels, settle_panels, settled_panels,
};
use crate::requests::{
    CustomViewsPage, CustomViewsPageView, UpdateAnswer, ViewIssues, ViewIssuesView, ViewerAnswer,
    ViewerAnswerView,
};
use crate::seqs::lemma_deep_view_append;
use crate::types::{IssueRelatableObject, LinearConfigView, RelatableView};
use crate::view_resolver::FetchError;
use vstd::prelude::*;

verus! {

impl AppView {
    /// The state after the answer to `LoadViewer` for `token`. No answer
    /// and an error make the token invalid. An answer that names the user
    /// makes it valid: token and user are kept. An answer that names nobody
    /// decides nothing.
    pub open spec fn viewer_loaded(self, token: Seq<char>, answer: Option<ViewerAnswerView>)
        -> AppView {
        match answer {
            None => self.with_token_state(TokenValidationState::Invalid),
            Some(a) => if a.error {
                self.with_token_state(TokenValidationState::Invalid)
            } else {
                match a.viewer {
                    Some(viewer) => AppView {
                        linear_config: LinearConfigView {
                            api_key: Some(token),
                            ..self.linear_config
                        },
                        viewer: Some(viewer),
                        ..self.with_token_state(TokenValidationState::Valid)
                    },
                    None => self,
                }
            },
        }
    }

    /// The state with the token known to be in `state`.
    pub open spec fn with_token_state(self, state: TokenValidationState) -> AppView {
        AppView {
            config_interface_input: UserInputView {
                token_validation_state: state,
                ..self.config_interface_input
            },
            ..self
        }
    }

    /// The state after the answer to `LoadCustomViews`.
    pub open spec fn custom_views_loaded(self, answer: Option<CustomViewsPageView>) -> AppView {
        let select = CustomViewSelectView { loading: false, ..self.linear_custom_view_select };
        match answer {
            None => AppView { linear_custom_view_select: select, ..self },
            Some(page) => match CursorView::advance(page.cursor_info) {
                None => AppView { linear_custom_view_select: select, ..self },
                Some(cursor) => AppView {
                    linear_custom_view_select: CustomViewSelectView {
                        view_table_data: match page.views {
                            Some(views) => select.view_table_data + views,
                            None => select.view_table_data,
                        },
                        ..select
                    },
                    linear_custom_view_cursor: cursor,
                    ..self
                },
            },
        }
    }

    /// The state after the answer to `LoadViewIssues` for view `view_id`.
    pub open spec fn view_issues_loaded(
        self,
        view_id: Seq<char>,
        answer: Option<ViewIssuesView>,
        append: bool,
    ) -> AppView {
        AppView {
            linear_dashboard_view_panel_list: settled_panels(
                self.linear_dashboard_view_panel_list,
                view_id,
                answer,
                append,
            ),
            ..self
        }
    }

    /// The state after the answer to `LoadOpData`.
    pub open spec fn op_data_loaded(self, answer: Option<OpDataResponseView>) -> AppView {
        let interface = OpInterfaceView { loading: false, ..self.linear_issue_op_interface };
        match answer {
            None => AppView { linear_issue_op_interface: interface, ..self },
            Some(page) => match CursorView::advance(page.cursor_info) {
                None => AppView { linear_issue_op_interface: interface, ..self },
                Some(cursor) => AppView {
                    linear_issue_op_interface: OpInterfaceView {
                        obj_data: interface.obj_data.with_items(page.data, page.data.len() as int),
                        cursor,
                        ..interface
                    },
                    ..self
                },
            },
        }
    }

    /// The state after the answer to `UpdateIssue`: if the service confirmed
    /// the update, every record of the issue in every panel holds the new
    /// value; if not, nothing changes.
    pub open spec fn issue_updated(
        self,
        issue_id: Seq<char>,
        value: RelatableView,
        answer: Option<UpdateAnswer>,
    ) -> AppView {
        if UpdateAnswer::confirmed(answer) {
            AppView {
                linear_dashboard_view_panel_list: patched_panels(
                    self.linear_dashboard_view_panel_list,
                    issue_id,
                    value,
                ),
                ..self
            }
        } else {
            self
        }
    }
}

/// The error of an answer that carries page info: the page info must
/// describe a cursor.
pub open spec fn page_info_error(cursor: Option<CursorView>) -> Result<(), FetchError> {
    match cursor {
        Some(_) => Ok(()),
        None => Err(FetchError::MalformedPageInfo),
    }
}

impl App {
    /// Says whether the answer to `LoadViewIssues` for the view with
    /// identifier `view_id` can be taken in: the counters of the panels
    /// that wait for it must have room for its queries.
    pub fn can_take_view_issues(&self, view_id: &String, answer: &Option<ViewIssues>) -> (res: bool)
        ensures
            res == (answer matches Some(fetched) ==> all_can_count(
                self@.linear_dashboard_view_panel_list,
                view_id@,
                fetched.request_num,
            )),
    {
        match answer {
            Some(fetched) => can_all_count(
                &self.linear_dashboard_view_panel_list,
                view_id,
                fetched.request_num,
            ),
            None => true,
        }
    }

    /// Takes in the answer to `LoadViewer` for `token`.
    pub fn viewer_loaded(&mut self, token: &String, answer: Option<ViewerAnswer>)
        ensures
            final(self)@ == old(self)@.viewer_loaded(token@, answer.deep_view()),
            old(self)@.well_formed() ==> final(self)@.well_formed(),
    {
        match answer {
            None => {
                self.config_interface_input.token_validation_state = TokenValidationState::Invalid;
            },
            Some(a) => {
                if a.error {
                    self.config_interface_input.token_validation_state =
                        TokenValidationState::Invalid;
                } else {
                    match a.viewer {
                        Some(viewer) => {
                            self.linear_config.api_key = Some(token.clone());
                            self.viewer = Some(viewer);
                            self.config_interface_input.token_validation_state =
                                TokenValidationState::Valid;
                        },
                        None => {},
                    }
                }
            },
        }
    }

    /// Takes in the answer to `LoadCustomViews`. Fails on page info that
    /// describes no cursor; the views and the cursor then stay as they were.
    pub fn custom_views_loaded(&mut self, answer: Option<CustomViewsPage>) -> (res: Result<
        (),
        FetchError,
    >)
        ensures
            final(self)@ == old(self)@.custom_views_loaded(answer.deep_view()),
            old(self)@.well_formed() ==> final(self)@.well_formed(),
            res == match answer {
                Some(page) => page_info_error(CursorView::advance(page@.cursor_info)),
                None => Ok(()),
            },
    {
        self.linear_custom_view_select.loading = false;
        let page = match answer {
            Some(page) => page,
            None => {
                return Ok(());
            },
        };
        let cursor = match GraphQLCursor::linear_cursor_from_page_info(&page.cursor_info) {
            Some(cursor) => cursor,
            None => {
                return Err(FetchError::MalformedPageInfo);
            },
        };
        match page.views {
            Some(views) => {
                let mut views = views;
                let ghost before = self.linear_custom_view_select.view_table_data;
                let ghost added = views;
                self.linear_custom_view_select.view_table_data.append(&mut views);
                proof {
                    lemma_deep_view_append(
                        before,
                        added,
                        self.linear_custom_view_select.view_table_data,
                    );
                }
            },
            None => {},
        }
        self.linear_custom_view_cursor = cursor;
        Ok(())
    }

    /// Takes in the answer to `LoadViewIssues` for the view with identifier
    /// `view_id`: every panel of the view that waits for it gets it.
    pub fn view_issues_loaded(&mut self, view_id: &String, answer: Option<ViewIssues>, append: bool)
        requires
            answer matches Some(fetched) ==> all_can_count(
                old(self)@.linear_dashboard_view_panel_list,
                view_id@,
                fetched.request_num,
            ),
        ensures
            final(self)@ == old(self)@.view_issues_loaded(view_id@, answer.deep_view(), append),
            old(self)@.well_formed() ==> final(self)@.well_formed(),
    {
        settle_panels(&mut self.linear_dashboard_view_panel_list, view_id, &answer, append);
    }

    /// Takes in the answer to `LoadOpData`. Fails on page info that
    /// describes no cursor; the values and the cursor then stay as they were.
    pub fn op_data_loaded(&mut self, answer: Option<OpDataResponse>) -> (res: Result<
        (),
        FetchError,
    >)
        ensures
            final(self)@ == old(self)@.op_data_loaded(answer.deep_view()),
            old(self)@.well_formed() ==> final(self)@.well_formed(),
            res == match answer {
                Some(page) => page_info_error(CursorView::advance(page@.cursor_info)),
                None => Ok(()),
            },
    {
        self.linear_issue_op_interface.loading = false;
        let page = match answer {
            Some(page) => page,
            None => {
                return Ok(());
            },
        };
        let cursor = match GraphQLCursor::linear_cursor_from_page_info(&page.cursor_info) {
            Some(cursor) => cursor,
            None => {
                return Err(FetchError::MalformedPageInfo);
            },
        };
        self.linear_issue_op_interface.obj_data.extend(&page.data);
        self.linear_issue_op_interface.cursor = cursor;
        Ok(())
    }

    /// Takes in the answer to `UpdateIssue` for issue `issue_id` and value
    /// `value`.
    pub fn issue_updated(
        &mut self,
        issue_id: &String,
        value: &IssueRelatableObject,
        answer: Option<UpdateAnswer>,
    )
        ensures
            final(self)@ == old(self)@.issue_updated(issue_id@, value@, answer),
            old(self)@.well_formed() ==> final(self)@.well_formed(),
    {
        let confirmed = match answer {
            Some(a) => match a.success {
                Some(success) => success,
                None => false,
            },
            None => false,
        };
        if confirmed {
            patch_panels(&mut self.linear_dashboard_view_panel_list, issue_id, value);
        }
    }
}

/// After a confirmed update of issue `issue_id` to `value`, every record of
/// that issue, in whatever panel, holds `value` in the field that `value`
/// belongs to and is otherwise as before; every other record is as before.
pub proof fn lemma_update_fans_out(
    app: AppView,
    issue_id: Seq<char>,
    value: RelatableView,
    answer: Option<UpdateAnswer>,
    place: int,
    row: int,
)
    requires
        UpdateAnswer::confirmed(answer),
        0 <= place < app.linear_dashboard_view_panel_list.len(),
        app.linear_dashboard_view_panel_list[place] is Some,
        0 <= row < app.linear_dashboard_view_panel_list[place]->0.issue_table_data.len(),
    ensures
        ({
            let before = app.linear_dashboard_view_panel_list[place]->0;
            let after = app.issue_updated(issue_id, value, answer).linear_dashboard_view_panel_list[place];
            &&& after is Some
            &&& after->0.issue_table_data.len() == before.issue_table_data.len()
            &&& before.issue_table_data[row].has_id(issue_id) ==> after->0.issue_table_data[row]
                == before.issue_table_data[row].with_value(value)
            &&& !before.issue_table_data[row].has_id(issue_id) ==> after->0.issue_table_data[row]
                == before.issue_table_data[row]
            &&& before.issue_table_data[row].has_id(issue_id) ==> match value {
                RelatableView::WorkflowState(s) => after->0.issue_table_data[row].state == Some(s),
                RelatableView::Assignee(u) => after->0.issue_table_data[row].assignee == Some(u),
                RelatableView::Project(p) => after->0.issue_table_data[row].project == Some(p),
                RelatableView::Cycle(c) => after->0.issue_table_data[row].cycle == Some(c),
            }
        }),
{
}

/// A confirmed update leaves a panel that holds no record of the issue
/// exactly as it was, and changes nothing but the panels' records.
pub proof fn lemma_update_spares_others(
    app: AppView,
    issue_id: Seq<char>,
    value: RelatableView,
    answer: Option<UpdateAnswer>,
    place: int,
)
    requires
        0 <= place < app.linear_dashboard_view_panel_list.len(),
        app.linear_dashboard_view_panel_list[place] matches Some(panel) ==> !panel.holds(issue_id),
    ensures
        app.issue_updated(issue_id, value, answer).linear_dashboard_view_panel_list[place]
            == app.linear_dashboard_view_panel_list[place],
        app.issue_updated(issue_id, value, answer) == (AppView {
            linear_dashboard_view_panel_list: app.issue_updated(
                issue_id,
                value,
                answer,
            ).linear_dashboard_view_panel_list,
            ..app
        }),
{
    if UpdateAnswer::confirmed(answer) {
        match app.linear_dashboard_view_panel_list[place] {
            Some(panel) => {
                assert(panel.patched(issue_id, value).issue_table_data =~= panel.issue_table_data);
            },
            None => {},
        }
    }
}

/// An update that the service did not confirm changes nothing.
pub proof fn lemma_failed_update_changes_nothing(
    app: AppView,
    issue_id: Seq<char>,
    value: RelatableView,
    answer: Option<UpdateAnswer>,
)
    requires
        !UpdateAnswer::confirmed(answer),
    ensures
        app.issue_updated(issue_id, value, answer) == app,
{
}

/// Answers keep the shape of the dashboard: six view slots, and one panel
/// place for each.
pub proof fn lemma_answers_keep_shape(
    app: AppView,
    token: Seq<char>,
    viewer: Option<ViewerAnswerView>,
    views: Option<CustomViewsPageView>,
    view_id: Seq<char>,
    issues: Option<ViewIssuesView>,
    append: bool,
    values: Option<OpDataResponseView>,
    issue_id: Seq<char>,
    value: RelatableView,
    update: Option<UpdateAnswer>,
)
    requires
        app.well_formed(),
    ensures
        app.viewer_loaded(token, viewer).well_formed(),
        app.custom_views_loaded(views).well_formed(),
        app.view_issues_loaded(view_id, issues, append).well_formed(),
        app.op_data_loaded(values).well_formed(),
        app.issue_updated(issue_id, value, update).well_formed(),
{
}

} // verus!
