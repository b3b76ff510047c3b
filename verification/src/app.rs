//! The state that the dispatch engine works on.

use crate::cursor::{CursorView, GraphQLCursor};
use crate::filter::{CustomView, CustomViewView};
use crate::issue_op::{LinearIssueOpInterface, OpInterfaceView};
use crate::panel::{DashboardViewPanel, PanelView};
use crate::requests::{BundleView, ViewLoadBundle};
use crate::types::{Issue, IssueView, LinearConfig, LinearConfigView, User, UserView};
use vstd::prelude::*;

verus! {

/// How many view slots the dashboard has.
pub const VIEW_SLOT_CAPACITY: usize = 6;

/// How many records one fetch tries to collect unless configured otherwise.
pub const DEFAULT_VIEW_PANEL_PAGE_SIZE: u32 = 50;

/// The screen that is shown.
#[derive(Debug, Clone, Copy, PartialEq, Eq, Structural)]
pub enum Route {
    ConfigInterface,
    ActionSelect,
    DashboardViewDisplay,
}

/// Whether keys are taken as commands or as text.
#[derive(Debug, Clone, Copy, PartialEq, Eq, Structural)]
pub enum InputMode {
    Normal,
    Editing,
}

/// What is known of the access token that was entered.
#[derive(Debug, Clone, Copy, PartialEq, Eq, Structural)]
pub enum TokenValidationState {
    Null,
    Validating,
    Valid,
    Invalid,
}

/// The access token as typed, and what is known of it.
#[derive(Debug, PartialEq, Eq)]
pub struct UserInput {
    pub input: String,
    pub token_validation_state: TokenValidationState,
}

/// The view of [`UserInput`]: what it holds, as mathematical values.
pub struct UserInputView {
    pub input: Seq<char>,
    pub token_validation_state: TokenValidationState,
}

impl DeepView for UserInput {
    type V = UserInputView;

    open spec fn deep_view(&self) -> UserInputView {
        UserInputView { input: self.input@, token_validation_state: self.token_validation_state }
    }
}

impl View for UserInput {
    type V = UserInputView;

    open spec fn view(&self) -> UserInputView {
        self.deep_view()
    }
}

/// The saved views that the service offers, as far as they are loaded.
#[derive(Debug, PartialEq, Eq)]
pub struct LinearCustomViewSelect {
    pub view_table_data: Vec<CustomView>,
    /// Whether a load of saved views is under way.
    pub loading: bool,
}

/// The view of [`LinearCustomViewSelect`]: what it holds, as mathematical values.
pub struct CustomViewSelectView {
    pub view_table_data: Seq<CustomViewView>,
    pub loading: bool,
}

impl CustomViewSelectView {
    /// No saved view is loaded and no load is under way.
    pub open spec fn empty() -> CustomViewSelectView {
        CustomViewSelectView { view_table_data: Seq::empty(), loading: false }
    }
}

impl DeepView for LinearCustomViewSelect {
    type V = CustomViewSelectView;

    open spec fn deep_view(&self) -> CustomViewSelectView {
        CustomViewSelectView {
            view_table_data: self.view_table_data.deep_view(),
            loading: self.loading,
        }
    }
}

impl View for LinearCustomViewSelect {
    type V = CustomViewSelectView;

    open spec fn view(&self) -> CustomViewSelectView {
        self.deep_view()
    }
}

impl Default for LinearCustomViewSelect {
    fn default() -> (res: Self)
        ensures
            res@ == CustomViewSelectView::empty(),
    {
        let select = LinearCustomViewSelect { view_table_data: Vec::new(), loading: false };
        assert(select.view_table_data.deep_view() =~= Seq::empty());
        select
    }
}

/// A list of which at most one item is selected.
#[derive(Debug, PartialEq, Eq)]
pub struct StatefulList {
    pub items: Vec<String>,
    pub selected: Option<usize>,
}

/// The view of [`StatefulList`]: what it holds, as mathematical values.
pub struct StatefulListView {
    pub items: Seq<Seq<char>>,
    pub selected: Option<usize>,
}

impl StatefulListView {
    /// The selection one item further down; from the last item, and from no
    /// selection, it goes to the first.
    pub open spec fn next(self) -> StatefulListView {
        StatefulListView {
            selected: Some(
                match self.selected {
                    Some(i) => if i + 1 >= self.items.len() {
                        0
                    } else {
                        (i + 1) as usize
                    },
                    None => 0,
                },
            ),
            ..self
        }
    }

    /// The selection one item further up; from the first item it goes to the
    /// last, and from no selection to the first.
    pub open spec fn previous(self) -> StatefulListView {
        StatefulListView {
            selected: Some(
                match self.selected {
                    Some(i) => if i == 0 {
                        if self.items.len() == 0 {
                            0
                        } else {
                            (self.items.len() - 1) as usize
                        }
                    } else {
                        (i - 1) as usize
                    },
                    None => 0,
                },
            ),
            ..self
        }
    }

    /// The list with nothing selected.
    pub open spec fn unselect(self) -> StatefulListView {
        StatefulListView { selected: None, ..self }
    }
}

impl DeepView for StatefulList {
    type V = StatefulListView;

    open spec fn deep_view(&self) -> StatefulListView {
        StatefulListView { items: self.items.deep_view(), selected: self.selected }
    }
}

impl View for StatefulList {
    type V = StatefulListView;

    open spec fn view(&self) -> StatefulListView {
        self.deep_view()
    }
}

impl StatefulList {
    /// A list of these items with nothing selected.
    pub fn with_items(items: Vec<String>) -> (res: Self)
        ensures
            res@ == (StatefulListView { items: items.deep_view(), selected: None }),
    {
        StatefulList { items, selected: None }
    }

    /// Moves the selection one item down, around to the first.
    pub fn next(&mut self)
        ensures
            final(self)@ == old(self)@.next(),
    {
        let i = match self.selected {
            Some(i) => if i >= self.items.len() || i + 1 >= self.items.len() {
                0
            } else {
                i + 1
            },
            None => 0,
        };
        self.selected = Some(i);
    }

    /// Moves the selection one item up, around to the last.
    pub fn previous(&mut self)
        ensures
            final(self)@ == old(self)@.previous(),
    {
        let i = match self.selected {
            Some(i) => if i == 0 {
                if self.items.len() == 0 {
                    0
                } else {
                    self.items.len() - 1
                }
            } else {
                i - 1
            },
            None => 0,
        };
        self.selected = Some(i);
    }

    /// Takes the selection away.
    pub fn unselect(&mut self)
        ensures
            final(self)@ == old(self)@.unselect(),
    {
        self.selected = None;
    }
}

/// The state of the application, as far as events act on it.
#[derive(Debug, PartialEq, Eq)]
pub struct App {
    pub route: Route,
    pub input_mode: InputMode,
    /// The access token being entered.
    pub config_interface_input: UserInput,
    /// The configuration that requests carry.
    pub linear_config: LinearConfig,
    /// The user that the access token belongs to, once it is known.
    pub viewer: Option<User>,
    /// Whether the cached view list has been looked for.
    pub view_list_cache_read_attempted: bool,
    /// Whether the time zones of the teams are loaded. No issues of a view
    /// are asked for before they are.
    pub team_tz_load_done: bool,
    pub linear_custom_view_select: LinearCustomViewSelect,
    pub linear_selected_custom_view_idx: Option<usize>,
    /// Where the next page of saved views starts.
    pub linear_custom_view_cursor: GraphQLCursor,
    /// The view slots of the dashboard.
    pub linear_dashboard_view_list: Vec<Option<CustomView>>,
    pub linear_dashboard_view_idx: Option<usize>,
    pub linear_dashboard_view_list_selected: bool,
    /// The panels of the dashboard, one place per view slot.
    pub linear_dashboard_view_panel_list: Vec<Option<DashboardViewPanel>>,
    /// The panel that is selected, counted from 1.
    pub linear_dashboard_view_panel_selected: Option<usize>,
    /// The issue that is selected in the selected panel.
    pub view_panel_issue_selected: Option<usize>,
    /// The place of the panel that the next pagination is for.
    pub view_panel_to_paginate: usize,
    /// Fetches of new panels that wait for the time zones.
    pub pending_view_loads: Vec<ViewLoadBundle>,
    pub linear_issue_op_interface: LinearIssueOpInterface,
    /// The actions that the user can choose from.
    pub actions: StatefulList,
}

/// The view of [`App`]: what it holds, as mathematical values.
pub struct AppView {
    pub route: Route,
    pub input_mode: InputMode,
    pub config_interface_input: UserInputView,
    pub linear_config: LinearConfigView,
    pub viewer: Option<UserView>,
    pub view_list_cache_read_attempted: bool,
    pub team_tz_load_done: bool,
    pub linear_custom_view_select: CustomViewSelectView,
    pub linear_selected_custom_view_idx: Option<usize>,
    pub linear_custom_view_cursor: CursorView,
    pub linear_dashboard_view_list: Seq<Option<CustomViewView>>,
    pub linear_dashboard_view_idx: Option<usize>,
    pub linear_dashboard_view_list_selected: bool,
    pub linear_dashboard_view_panel_list: Seq<Option<PanelView>>,
    pub linear_dashboard_view_panel_selected: Option<usize>,
    pub view_panel_issue_selected: Option<usize>,
    pub view_panel_to_paginate: usize,
    pub pending_view_loads: Seq<BundleView>,
    pub linear_issue_op_interface: OpInterfaceView,
    pub actions: StatefulListView,
}

impl DeepView for App {
    type V = AppView;

    open spec fn deep_view(&self) -> AppView {
        AppView {
            route: self.route,
            input_mode: self.input_mode,
            config_interface_input: self.config_interface_input@,
            linear_config: self.linear_config@,
            viewer: self.viewer.deep_view(),
            view_list_cache_read_attempted: self.view_list_cache_read_attempted,
            team_tz_load_done: self.team_tz_load_done,
            linear_custom_view_select: self.linear_custom_view_select@,
            linear_selected_custom_view_idx: self.linear_selected_custom_view_idx,
            linear_custom_view_cursor: self.linear_custom_view_cursor@,
            linear_dashboard_view_list: self.linear_dashboard_view_list.deep_view(),
            linear_dashboard_view_idx: self.linear_dashboard_view_idx,
            linear_dashboard_view_list_selected: self.linear_dashboard_view_list_selected,
            linear_dashboard_view_panel_list: self.linear_dashboard_view_panel_list.deep_view(),
            linear_dashboard_view_panel_selected: self.linear_dashboard_view_panel_selected,
            view_panel_issue_selected: self.view_panel_issue_selected,
            view_panel_to_paginate: self.view_panel_to_paginate,
            pending_view_loads: self.pending_view_loads.deep_view(),
            linear_issue_op_interface: self.linear_issue_op_interface@,
            actions: self.actions@,
        }
    }
}

impl View for App {
    type V = AppView;

    open spec fn view(&self) -> AppView {
        self.deep_view()
    }
}

impl AppView {
    /// The state in which the application starts: the configuration screen,
    /// six empty view slots, nothing loaded and nothing under way.
    pub open spec fn initial() -> AppView {
        AppView {
            route: Route::ConfigInterface,
            input_mode: InputMode::Normal,
            config_interface_input: UserInputView {
                input: Seq::empty(),
                token_validation_state: TokenValidationState::Null,
            },
            linear_config: LinearConfigView {
                api_key: None,
                view_panel_page_size: DEFAULT_VIEW_PANEL_PAGE_SIZE,
            },
            viewer: None,
            view_list_cache_read_attempted: false,
            team_tz_load_done: false,
            linear_custom_view_select: CustomViewSelectView::empty(),
            linear_selected_custom_view_idx: None,
            linear_custom_view_cursor: CursorView::start(),
            linear_dashboard_view_list: Seq::new(
                VIEW_SLOT_CAPACITY as nat,
                |i: int| None::<CustomViewView>,
            ),
            linear_dashboard_view_idx: None,
            linear_dashboard_view_list_selected: true,
            linear_dashboard_view_panel_list: Seq::new(
                VIEW_SLOT_CAPACITY as nat,
                |i: int| None::<PanelView>,
            ),
            linear_dashboard_view_panel_selected: None,
            view_panel_issue_selected: None,
            view_panel_to_paginate: 0,
            pending_view_loads: Seq::empty(),
            linear_issue_op_interface: OpInterfaceView::idle(),
            actions: StatefulListView { items: seq!["Modify Dashboard"@], selected: Some(0) },
        }
    }

    /// The dashboard has six view slots, and one panel place for each.
    pub open spec fn well_formed(self) -> bool {
        &&& self.linear_dashboard_view_list.len() == VIEW_SLOT_CAPACITY
        &&& self.linear_dashboard_view_panel_list.len() == VIEW_SLOT_CAPACITY
    }

    /// The panel that is selected.
    pub open spec fn selected_panel(self) -> Option<PanelView> {
        match self.linear_dashboard_view_panel_selected {
            Some(n) => if 1 <= n <= self.linear_dashboard_view_panel_list.len() {
                self.linear_dashboard_view_panel_list[n - 1]
            } else {
                None
            },
            None => None,
        }
    }

    /// Whether the selected panel can be refreshed: it exists and is not
    /// loading.
    pub open spec fn refresh_cmd_active(self) -> bool {
        self.selected_panel() matches Some(panel) && !panel.loading
    }

    /// Whether an issue is selected, so that it can be modified.
    pub open spec fn modify_cmd_active(self) -> bool {
        self.selected_issue() is Some
    }

    /// Whether a view slot that holds a view is selected, so that the view
    /// can be removed.
    pub open spec fn remove_view_cmd_active(self) -> bool {
        self.linear_dashboard_view_idx matches Some(at) && at
            < self.linear_dashboard_view_list.len() && self.linear_dashboard_view_list[at as int] is Some
    }

    /// The issue that is selected in the selected panel.
    pub open spec fn selected_issue(self) -> Option<IssueView> {
        match (self.selected_panel(), self.view_panel_issue_selected) {
            (Some(panel), Some(row)) => if row < panel.issue_table_data.len() {
                Some(panel.issue_table_data[row as int])
            } else {
                None
            },
            _ => None,
        }
    }
}

impl Default for App {
    fn default() -> (res: Self)
        ensures
            res@ == AppView::initial(),
            res@.well_formed(),
    {
        let mut slots: Vec<Option<CustomView>> = Vec::new();
        let mut panels: Vec<Option<DashboardViewPanel>> = Vec::new();
        let mut i: usize = 0;
        while i < VIEW_SLOT_CAPACITY
            invariant
                i <= VIEW_SLOT_CAPACITY,
                slots@.len() == i,
                panels@.len() == i,
                forall|j: int| 0 <= j < i ==> slots@[j] is None && panels@[j] is None,
            decreases VIEW_SLOT_CAPACITY - i,
        {
            slots.push(None);
            panels.push(None);
            i += 1;
        }
        let mut items: Vec<String> = Vec::new();
        items.push("Modify Dashboard".to_owned());
        let pending: Vec<ViewLoadBundle> = Vec::new();
        let app = App {
            route: Route::ConfigInterface,
            input_mode: InputMode::Normal,
            config_interface_input: UserInput {
                input: String::new(),
                token_validation_state: TokenValidationState::Null,
            },
            linear_config: LinearConfig {
                api_key: None,
                view_panel_page_size: DEFAULT_VIEW_PANEL_PAGE_SIZE,
            },
            viewer: None,
            view_list_cache_read_attempted: false,
            team_tz_load_done: false,
            linear_custom_view_select: LinearCustomViewSelect::default(),
            linear_selected_custom_view_idx: None,
            linear_custom_view_cursor: GraphQLCursor::default(),
            linear_dashboard_view_list: slots,
            linear_dashboard_view_idx: None,
            linear_dashboard_view_list_selected: true,
            linear_dashboard_view_panel_list: panels,
            linear_dashboard_view_panel_selected: None,
            view_panel_issue_selected: None,
            view_panel_to_paginate: 0,
            pending_view_loads: pending,
            linear_issue_op_interface: LinearIssueOpInterface::default(),
            actions: StatefulList { items, selected: Some(0) },
        };
        proof {
            assert(app@.linear_dashboard_view_list =~= AppView::initial().linear_dashboard_view_list);
            assert(app@.linear_dashboard_view_panel_list
                =~= AppView::initial().linear_dashboard_view_panel_list);
            assert(app@.pending_view_loads =~= Seq::empty());
            assert(app@.actions.items =~= seq!["Modify Dashboard"@]);
        }
        app
    }
}

impl App {
    /// The place of the selected panel in the panel list, if a panel stands
    /// there.
    pub fn selected_panel_place(&self) -> (res: Option<usize>)
        ensures
            match res {
                Some(at) => {
                    &&& at < self.linear_dashboard_view_panel_list.len()
                    &&& self.linear_dashboard_view_panel_selected == Some((at + 1) as usize)
                    &&& self.linear_dashboard_view_panel_list[at as int] is Some
                    &&& self@.selected_panel() == self@.linear_dashboard_view_panel_list[at as int]
                },
                None => self@.selected_panel() is None,
            },
    {
        match self.linear_dashboard_view_panel_selected {
            Some(n) => {
                if 1 <= n && n <= self.linear_dashboard_view_panel_list.len() {
                    match &self.linear_dashboard_view_panel_list[n - 1] {
                        Some(_) => Some(n - 1),
                        None => None,
                    }
                } else {
                    None
                }
            },
            None => None,
        }
    }

    /// The issue that is selected in the selected panel.
    pub fn selected_issue(&self) -> (res: Option<&Issue>)
        ensures
            res.deep_view() == self@.selected_issue(),
    {
        let at = match self.selected_panel_place() {
            Some(at) => at,
            None => {
                return None;
            },
        };
        let row = match self.view_panel_issue_selected {
            Some(row) => row,
            None => {
                return None;
            },
        };
        match &self.linear_dashboard_view_panel_list[at] {
            Some(panel) => {
                if row < panel.issue_table_data.len() {
                    Some(&panel.issue_table_data[row])
                } else {
                    None
                }
            },
            None => None,
        }
    }
}

impl App {
    /// Whether the selected panel can be refreshed.
    pub fn refresh_cmd_active(&self) -> (res: bool)
        ensures
            res == self@.refresh_cmd_active(),
    {
        match self.selected_panel_place() {
            Some(at) => match &self.linear_dashboard_view_panel_list[at] {
                Some(panel) => !panel.loading,
                None => false,
            },
            None => false,
        }
    }

    /// Whether an issue is selected, so that it can be modified.
    pub fn modify_cmd_active(&self) -> (res: bool)
        ensures
            res == self@.modify_cmd_active(),
    {
        self.selected_issue().is_some()
    }

    /// Whether a view slot that holds a view is selected.
    pub fn remove_view_cmd_active(&self) -> (res: bool)
        ensures
            res == self@.remove_view_cmd_active(),
    {
        match self.linear_dashboard_view_idx {
            Some(at) => at < self.linear_dashboard_view_list.len()
                && self.linear_dashboard_view_list[at].is_some(),
            None => false,
        }
    }
}

} // verus!
