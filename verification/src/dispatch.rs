//! The dispatch engine: what each event does to the state, and what it asks
//! of the network worker.
//!
//! An event never waits. It changes the state, hands back the requests to
//! send, and returns; the answer to a request comes in later through one of
//! the functions that take answers in. A loading guard that is held turns
//! the event that would take it into a no-op.

use crate::app::{
    App, AppView, CustomViewSelectView, LinearCustomViewSelect, Route, TokenValidationState,
    UserInputView, VIEW_SLOT_CAPACITY,
};
use crate::cursor::{CursorView, GraphQLCursor};
use crate::filter::{CustomView, CustomViewView};
use crate::issue_op::{IssueModificationOp, OpInterfaceView};
use crate::panel::{
    fetch_places, has_idle, lemma_fetch_places, lemma_mark_leaves_none_idle,
    lemma_mark_without_idle, mark_loading, marked_loading, reconcile, reconciled, PanelView,
};
use crate::requests::{BundleView, IOEvent, IOEventView, ViewLoadBundle};
use crate::seqs::{lemma_deep_view_push, lemma_deep_view_update};
use crate::text::same_text;
use crate::types::LinearConfigView;
use vstd::prelude::*;

verus! {

/// What an event leads to: the state after it, and the requests to send.
pub struct Step {
    pub state: AppView,
    pub requests: Seq<IOEventView>,
}

impl AppView {
    /// The step of an event that does nothing.
    pub open spec fn no_op(self) -> Step {
        Step { state: self, requests: Seq::empty() }
    }

    /// `load_viewer`: the token that was entered is sent for validation.
    pub open spec fn load_viewer(self) -> Step {
        Step {
            state: AppView {
                config_interface_input: UserInputView {
                    token_validation_state: TokenValidationState::Validating,
                    ..self.config_interface_input
                },
                ..self
            },
            requests: seq![IOEventView::LoadViewer { api_key: self.config_interface_input.input }],
        }
    }

    /// `load_custom_views`: unless a load of saved views is under way, one
    /// is begun from the cursor of the saved views.
    pub open spec fn load_custom_views(self) -> Step {
        if self.linear_custom_view_select.loading {
            self.no_op()
        } else {
            Step {
                state: AppView {
                    linear_custom_view_select: CustomViewSelectView {
                        loading: true,
                        ..self.linear_custom_view_select
                    },
                    ..self
                },
                requests: seq![
                    IOEventView::LoadCustomViews {
                        linear_config: self.linear_config,
                        linear_cursor: self.linear_custom_view_cursor,
                    },
                ],
            }
        }
    }

    /// The panel that the next pagination is for, if it is free to fetch.
    pub open spec fn panel_to_paginate(self) -> Option<PanelView> {
        let at = self.view_panel_to_paginate as int;
        if at < self.linear_dashboard_view_panel_list.len() {
            match self.linear_dashboard_view_panel_list[at] {
                Some(panel) => if panel.loading {
                    None
                } else {
                    Some(panel)
                },
                None => None,
            }
        } else {
            None
        }
    }

    /// `paginate_dashboard_view`: unless the panel is loading, a fetch of
    /// its next page is begun.
    pub open spec fn paginate_dashboard_view(self) -> Step {
        match self.panel_to_paginate() {
            Some(panel) => Step {
                state: AppView {
                    linear_dashboard_view_panel_list: self.linear_dashboard_view_panel_list.update(
                        self.view_panel_to_paginate as int,
                        Some(PanelView { loading: true, ..panel }),
                    ),
                    ..self
                },
                requests: seq![
                    IOEventView::LoadViewIssues {
                        linear_config: self.linear_config,
                        view: panel.filter,
                        view_loader: panel.view_loader,
                        append: true,
                    },
                ],
            },
            None => self.no_op(),
        }
    }

    /// The request for the values of the field being edited: it needs a
    /// field that has a list of values, and a selected issue that names its
    /// team.
    pub open spec fn op_data_request(self) -> Option<IOEventView> {
        match (self.linear_issue_op_interface.current_op, self.selected_issue()) {
            (Some(op), Some(issue)) => match issue.team_id {
                Some(team) => if op.has_reference_list() {
                    Some(
                        IOEventView::LoadOpData {
                            op,
                            linear_config: self.linear_config,
                            linear_cursor: self.linear_issue_op_interface.cursor,
                            team,
                        },
                    )
                } else {
                    None
                },
                None => None,
            },
            _ => None,
        }
    }

    /// `load_issue_op_data`: unless a load of values is under way or the
    /// request cannot be made, a load of the next page of values is begun.
    pub open spec fn load_issue_op_data(self) -> Step {
        if self.linear_issue_op_interface.loading {
            self.no_op()
        } else {
            match self.op_data_request() {
                Some(request) => Step {
                    state: AppView {
                        linear_issue_op_interface: OpInterfaceView {
                            loading: true,
                            ..self.linear_issue_op_interface
                        },
                        ..self
                    },
                    requests: seq![request],
                },
                None => self.no_op(),
            }
        }
    }

    /// The request to update the selected issue: it needs a field, a
    /// selected issue that has an identifier, and a selected value.
    pub open spec fn update_request(self) -> Option<IOEventView> {
        match (
            self.linear_issue_op_interface.current_op,
            self.selected_issue(),
            self.linear_issue_op_interface.selected_value(),
        ) {
            (Some(op), Some(issue), Some(value)) => match issue.id {
                Some(issue_id) => Some(
                    IOEventView::UpdateIssue {
                        op,
                        linear_config: self.linear_config,
                        issue_id,
                        ref_id: value.id(),
                        value,
                    },
                ),
                None => None,
            },
            _ => None,
        }
    }

    /// `update_issue`: the update is sent if it can be made. The state stays
    /// as it is until the answer comes.
    pub open spec fn update_issue(self) -> Step {
        match self.update_request() {
            Some(request) => Step { state: self, requests: seq![request] },
            None => self.no_op(),
        }
    }
}

/// A list of requests that holds `request` alone.
fn one_request(request: IOEvent) -> (res: Vec<IOEvent>)
    ensures
        res.deep_view() == seq![request@],
{
    let mut requests: Vec<IOEvent> = Vec::new();
    requests.push(request);
    assert(requests.deep_view() =~= seq![request@]);
    requests
}

/// An empty list of requests.
fn no_requests() -> (res: Vec<IOEvent>)
    ensures
        res.deep_view() == Seq::<IOEventView>::empty(),
{
    let requests: Vec<IOEvent> = Vec::new();
    assert(requests.deep_view() =~= Seq::<IOEventView>::empty());
    requests
}

impl App {
    /// Sends the token that was entered for validation.
    pub fn load_viewer(&mut self) -> (res: Vec<IOEvent>)
        ensures
            final(self)@ == old(self)@.load_viewer().state,
            res.deep_view() == old(self)@.load_viewer().requests,
    {
        self.config_interface_input.token_validation_state = TokenValidationState::Validating;
        one_request(IOEvent::LoadViewer { api_key: self.config_interface_input.input.clone() })
    }

    /// Begins a load of saved views, unless one is under way.
    pub fn load_custom_views(&mut self) -> (res: Vec<IOEvent>)
        ensures
            final(self)@ == old(self)@.load_custom_views().state,
            res.deep_view() == old(self)@.load_custom_views().requests,
    {
        if self.linear_custom_view_select.loading {
            return no_requests();
        }
        self.linear_custom_view_select.loading = true;
        one_request(
            IOEvent::LoadCustomViews {
                linear_config: self.linear_config.clone(),
                linear_cursor: self.linear_custom_view_cursor.clone(),
            },
        )
    }

    /// Begins a fetch of the next page of the panel at
    /// `view_panel_to_paginate`, unless that panel is loading or does not
    /// exist.
    pub fn paginate_dashboard_view(&mut self) -> (res: Vec<IOEvent>)
        ensures
            final(self)@ == old(self)@.paginate_dashboard_view().state,
            res.deep_view() == old(self)@.paginate_dashboard_view().requests,
    {
        let at = self.view_panel_to_paginate;
        if at >= self.linear_dashboard_view_panel_list.len() {
            return no_requests();
        }
        let request = match &self.linear_dashboard_view_panel_list[at] {
            Some(panel) => {
                if panel.loading {
                    return no_requests();
                }
                IOEvent::LoadViewIssues {
                    linear_config: self.linear_config.clone(),
                    view: panel.filter.clone(),
                    view_loader: match &panel.view_loader {
                        Some(cursor) => Some(cursor.clone()),
                        None => None,
                    },
                    append: true,
                }
            },
            None => {
                return no_requests();
            },
        };
        let ghost before = self.linear_dashboard_view_panel_list;
        match &mut self.linear_dashboard_view_panel_list[at] {
            Some(panel) => {
                panel.loading = true;
            },
            None => {},
        }
        proof {
            lemma_deep_view_update(
                before,
                self.linear_dashboard_view_panel_list,
                at as int,
                self.linear_dashboard_view_panel_list[at as int],
            );
        }
        one_request(request)
    }

    /// Builds the request for the values of the field being edited.
    pub fn op_data_request(&self) -> (res: Option<IOEvent>)
        ensures
            res.deep_view() == self@.op_data_request(),
    {
        let op = match self.linear_issue_op_interface.current_op {
            Some(op) => op,
            None => {
                return None;
            },
        };
        let issue = match self.selected_issue() {
            Some(issue) => issue,
            None => {
                return None;
            },
        };
        let team = match &issue.team_id {
            Some(team) => team.clone(),
            None => {
                return None;
            },
        };
        match op {
            IssueModificationOp::Title => None,
            _ => Some(
                IOEvent::LoadOpData {
                    op,
                    linear_config: self.linear_config.clone(),
                    linear_cursor: self.linear_issue_op_interface.cursor.clone(),
                    team,
                },
            ),
        }
    }

    /// Begins a load of the next page of values for the field being edited,
    /// unless one is under way or the request cannot be made.
    pub fn load_issue_op_data(&mut self) -> (res: Vec<IOEvent>)
        ensures
            final(self)@ == old(self)@.load_issue_op_data().state,
            res.deep_view() == old(self)@.load_issue_op_data().requests,
    {
        if self.linear_issue_op_interface.loading {
            return no_requests();
        }
        match self.op_data_request() {
            Some(request) => {
                self.linear_issue_op_interface.loading = true;
                one_request(request)
            },
            None => no_requests(),
        }
    }

    /// Builds the request to update the selected issue.
    pub fn update_request(&self) -> (res: Option<IOEvent>)
        ensures
            res.deep_view() == self@.update_request(),
    {
        let op = match self.linear_issue_op_interface.current_op {
            Some(op) => op,
            None => {
                return None;
            },
        };
        let issue = match self.selected_issue() {
            Some(issue) => issue,
            None => {
                return None;
            },
        };
        let value = match self.linear_issue_op_interface.selected_value() {
            Some(value) => value,
            None => {
                return None;
            },
        };
        let issue_id = match &issue.id {
            Some(id) => id.clone(),
            None => {
                return None;
            },
        };
        let ref_id = value.id().clone();
        Some(
            IOEvent::UpdateIssue {
                op,
                linear_config: self.linear_config.clone(),
                issue_id,
                ref_id,
                value,
            },
        )
    }

    /// Sends the update of the selected issue, if it can be made.
    pub fn update_issue(&mut self) -> (res: Vec<IOEvent>)
        ensures
            final(self)@ == old(self)@.update_issue().state,
            res.deep_view() == old(self)@.update_issue().requests,
    {
        match self.update_request() {
            Some(request) => one_request(request),
            None => no_requests(),
        }
    }
}

/// What becomes of the panels when waiting fetches are let go, and the
/// requests that go out.
pub struct Released {
    pub panels: Seq<Option<PanelView>>,
    pub requests: Seq<IOEventView>,
}

/// Lets the first `count` of the waiting fetches go, in order. A fetch goes
/// out if its view has a panel that is free; every panel of the view then
/// holds the loading guard, so that a second fetch for the same view is
/// dropped.
pub open spec fn released(panels: Seq<Option<PanelView>>, bundles: Seq<BundleView>, count: int)
    -> Released
    decreases count,
{
    if count <= 0 {
        Released { panels, requests: Seq::empty() }
    } else {
        let before = released(panels, bundles, count - 1);
        let bundle = bundles[count - 1];
        if has_idle(before.panels, bundle.item_filter.id) {
            Released {
                panels: marked_loading(before.panels, bundle.item_filter.id),
                requests: before.requests.push(bundle.request()),
            }
        } else {
            before
        }
    }
}

/// The fetch that the panel of a new view waits for.
pub open spec fn bundle_for(config: LinearConfigView, slot: Option<CustomViewView>) -> BundleView {
    BundleView { linear_config: config, item_filter: slot->0, loader: None }
}

/// The fetches of the panels at `places`, in order.
pub open spec fn bundles_for(
    config: LinearConfigView,
    slots: Seq<Option<CustomViewView>>,
    places: Seq<usize>,
) -> Seq<BundleView> {
    places.map_values(|place: usize| bundle_for(config, slots[place as int]))
}

impl AppView {
    /// Lets the waiting fetches go, if the time zones are loaded; until
    /// then nothing is sent and the fetches go on waiting.
    pub open spec fn release_view_loads(self) -> Step {
        if self.team_tz_load_done {
            let out = released(
                self.linear_dashboard_view_panel_list,
                self.pending_view_loads,
                self.pending_view_loads.len() as int,
            );
            Step {
                state: AppView {
                    linear_dashboard_view_panel_list: out.panels,
                    pending_view_loads: Seq::empty(),
                    ..self
                },
                requests: out.requests,
            }
        } else {
            self.no_op()
        }
    }

    /// The state after the panels are fitted to the view slots: a fetch
    /// waits for each panel that is new.
    pub open spec fn reconcile_panels(self) -> AppView {
        AppView {
            linear_dashboard_view_panel_list: reconciled(
                self.linear_dashboard_view_list,
                self.linear_dashboard_view_panel_list,
            ),
            pending_view_loads: self.pending_view_loads + bundles_for(
                self.linear_config,
                self.linear_dashboard_view_list,
                fetch_places(
                    self.linear_dashboard_view_list,
                    self.linear_dashboard_view_panel_list,
                    self.linear_dashboard_view_list.len() as int,
                ),
            ),
            ..self
        }
    }

    /// `load_dashboard_views`: the panels are fitted to the view slots, and
    /// the fetches of the new panels go out once the time zones are loaded.
    pub open spec fn load_dashboard_views(self) -> Step {
        self.reconcile_panels().release_view_loads()
    }

    /// The time zones are loaded: the fetches that waited for them go out.
    pub open spec fn timezones_loaded(self) -> Step {
        (AppView { team_tz_load_done: true, ..self }).release_view_loads()
    }
}

impl App {
    /// Lets the waiting fetches of new panels go, if the time zones are
    /// loaded. Until then it sends nothing and changes nothing.
    pub fn release_view_loads(&mut self) -> (res: Vec<IOEvent>)
        ensures
            final(self)@ == old(self)@.release_view_loads().state,
            res.deep_view() == old(self)@.release_view_loads().requests,
            old(self)@.well_formed() ==> final(self)@.well_formed(),
    {
        proof {
            lemma_shape_kept_by_release(old(self)@);
        }
        if !self.team_tz_load_done {
            return no_requests();
        }
        let mut requests: Vec<IOEvent> = no_requests();
        let ghost bundles = self.pending_view_loads.deep_view();
        let ghost start = self.linear_dashboard_view_panel_list.deep_view();
        let mut k: usize = 0;
        while k < self.pending_view_loads.len()
            invariant
                k <= self.pending_view_loads.len(),
                bundles == self.pending_view_loads.deep_view(),
                self.pending_view_loads == old(self).pending_view_loads,
                self.linear_dashboard_view_panel_list.deep_view() == released(
                    start,
                    bundles,
                    k as int,
                ).panels,
                requests.deep_view() == released(start, bundles, k as int).requests,
                *self == (App {
                    linear_dashboard_view_panel_list: self.linear_dashboard_view_panel_list,
                    ..*old(self)
                }),
            decreases self.pending_view_loads.len() - k,
        {
            let went = mark_loading(
                &mut self.linear_dashboard_view_panel_list,
                &self.pending_view_loads[k].item_filter.id,
            );
            if went {
                let ghost before = requests;
                let request = self.pending_view_loads[k].request();
                requests.push(request);
                proof {
                    lemma_deep_view_push(before, requests, request);
                }
            } else {
                proof {
                    lemma_mark_without_idle(
                        released(start, bundles, k as int).panels,
                        bundles[k as int].item_filter.id,
                    );
                }
            }
            k += 1;
        }
        self.pending_view_loads = Vec::new();
        assert(self.pending_view_loads.deep_view() =~= Seq::<BundleView>::empty());
        requests
    }

    /// Fits the panels to the view slots and puts a fetch in waiting for
    /// each panel that is new.
    pub fn reconcile_panels(&mut self)
        ensures
            final(self)@ == old(self)@.reconcile_panels(),
            old(self)@.well_formed() ==> final(self)@.well_formed(),
    {
        let (panels, places) = reconcile(
            &self.linear_dashboard_view_list,
            &self.linear_dashboard_view_panel_list,
        );
        let ghost slots = self.linear_dashboard_view_list.deep_view();
        let ghost wanted = bundles_for(self.linear_config@, slots, places@);
        let ghost waiting = self.pending_view_loads.deep_view();
        proof {
            lemma_fetch_places(
                slots,
                self.linear_dashboard_view_panel_list.deep_view(),
                slots.len() as int,
            );
        }
        let mut k: usize = 0;
        while k < places.len()
            invariant
                k <= places.len(),
                slots == self.linear_dashboard_view_list.deep_view(),
                wanted == bundles_for(self.linear_config@, slots, places@),
                forall|l: int|
                    0 <= l < places@.len() ==> (#[trigger] places@[l]) < slots.len() && slots[places@[l] as int] is Some,
                self.pending_view_loads.deep_view() == waiting + wanted.take(k as int),
                *self == (App { pending_view_loads: self.pending_view_loads, ..*old(self) }),
            decreases places.len() - k,
        {
            let place = places[k];
            let view = match &self.linear_dashboard_view_list[place] {
                Some(view) => view,
                None => unreached(),
            };
            let bundle = ViewLoadBundle {
                linear_config: self.linear_config.clone(),
                item_filter: view.clone(),
                loader: None,
            };
            let ghost before = self.pending_view_loads;
            self.pending_view_loads.push(bundle);
            proof {
                lemma_deep_view_push(before, self.pending_view_loads, bundle);
                assert(self.pending_view_loads.deep_view() =~= waiting + wanted.take(k + 1));
            }
            k += 1;
        }
        assert(wanted.take(places.len() as int) =~= wanted);
        self.linear_dashboard_view_panel_list = panels;
    }

    /// Fits the panels to the view slots and begins the fetches of the new
    /// panels; they go out at once if the time zones are loaded, and wait
    /// for them if not.
    pub fn load_dashboard_views(&mut self) -> (res: Vec<IOEvent>)
        ensures
            final(self)@ == old(self)@.load_dashboard_views().state,
            res.deep_view() == old(self)@.load_dashboard_views().requests,
            old(self)@.well_formed() ==> final(self)@.well_formed(),
    {
        self.reconcile_panels();
        self.release_view_loads()
    }

    /// Records that the time zones are loaded and lets the fetches go that
    /// waited for them.
    pub fn timezones_loaded(&mut self) -> (res: Vec<IOEvent>)
        ensures
            final(self)@ == old(self)@.timezones_loaded().state,
            res.deep_view() == old(self)@.timezones_loaded().requests,
            old(self)@.well_formed() ==> final(self)@.well_formed(),
    {
        self.team_tz_load_done = true;
        self.release_view_loads()
    }
}

/// Letting the waiting fetches go keeps the number of panel places.
pub proof fn lemma_shape_kept_by_release(app: AppView)
    ensures
        app.release_view_loads().state.linear_dashboard_view_panel_list.len()
            == app.linear_dashboard_view_panel_list.len(),
        app.release_view_loads().state.linear_dashboard_view_list
            == app.linear_dashboard_view_list,
{
    lemma_released_requests(
        app.linear_dashboard_view_panel_list,
        app.pending_view_loads,
        app.pending_view_loads.len() as int,
    );
}

/// While the time zones are not loaded, neither fitting the panels to the
/// slots nor letting the waiting fetches go sends a request, the flag stays
/// down, and no fetch that waits is lost.
pub proof fn lemma_barrier_holds(app: AppView)
    requires
        !app.team_tz_load_done,
    ensures
        app.release_view_loads() == app.no_op(),
        app.load_dashboard_views().requests.len() == 0,
        !app.load_dashboard_views().state.team_tz_load_done,
        app.pending_view_loads.is_prefix_of(app.load_dashboard_views().state.pending_view_loads),
{
}

/// While the time zones are not loaded, no event sends a request for the
/// issues of a view, and none loads the time zones, with one exception: a
/// pagination of a panel that is free to fetch does not wait for them.
pub proof fn lemma_no_view_fetch_before_time_zones(app: AppView, event_name: Seq<char>)
    requires
        !app.team_tz_load_done,
        !(event_name == "paginate_dashboard_view"@ && app.panel_to_paginate() is Some),
    ensures
        !app.dispatch_event(event_name).state.team_tz_load_done,
        forall|k: int|
            0 <= k < app.dispatch_event(event_name).requests.len() ==> !(
            #[trigger] app.dispatch_event(event_name).requests[k]).loads_issues(),
{
}

/// Letting waiting fetches go sends nothing but requests for the issues of
/// a view, at most one for each fetch that waited.
pub proof fn lemma_released_requests(
    panels: Seq<Option<PanelView>>,
    bundles: Seq<BundleView>,
    count: int,
)
    requires
        count <= bundles.len(),
    ensures
        released(panels, bundles, count).requests.len() <= if count <= 0 {
            0
        } else {
            count
        },
        released(panels, bundles, count).panels.len() == panels.len(),
        forall|k: int|
            0 <= k < released(panels, bundles, count).requests.len() ==> (#[trigger] released(
                panels,
                bundles,
                count,
            ).requests[k]).loads_issues(),
    decreases count,
{
    if count > 0 {
        lemma_released_requests(panels, bundles, count - 1);
    }
}

impl AppView {
    /// Whether a cached view list is taken over: only the first time it is
    /// looked for, and only if it fills the dashboard's slots.
    pub open spec fn adopts(self, cached: Option<Seq<Option<CustomViewView>>>) -> bool {
        &&& !self.view_list_cache_read_attempted
        &&& cached matches Some(list)
        &&& list.len() == VIEW_SLOT_CAPACITY
    }

    /// The step to another screen.
    ///
    /// To the configuration screen: no action is selected. To the action
    /// screen: the next action is selected, the cached view list is taken
    /// over if there is one, and the dashboard's views are loaded. To the
    /// view configuration: no action is selected, the saved views are
    /// forgotten and loaded anew from the start.
    pub open spec fn change_route(self, route: Route, cached: Option<Seq<Option<CustomViewView>>>)
        -> Step {
        match route {
            Route::ConfigInterface => Step {
                state: AppView { route, actions: self.actions.unselect(), ..self },
                requests: Seq::empty(),
            },
            Route::ActionSelect => {
                let step = (AppView {
                    actions: self.actions.next(),
                    linear_dashboard_view_list: if self.adopts(cached) {
                        cached->0
                    } else {
                        self.linear_dashboard_view_list
                    },
                    view_list_cache_read_attempted: true,
                    ..self
                }).load_dashboard_views();
                Step { state: AppView { route, ..step.state }, requests: step.requests }
            },
            Route::DashboardViewDisplay => {
                let step = (AppView {
                    actions: self.actions.unselect(),
                    linear_custom_view_select: CustomViewSelectView::empty(),
                    linear_selected_custom_view_idx: None,
                    linear_custom_view_cursor: CursorView::start(),
                    linear_dashboard_view_list_selected: true,
                    ..self
                }).load_custom_views();
                Step { state: AppView { route, ..step.state }, requests: step.requests }
            },
        }
    }

    /// The step of the event with the given name; an unknown name does
    /// nothing.
    pub open spec fn dispatch_event(self, event_name: Seq<char>) -> Step {
        if event_name == "load_viewer"@ {
            self.load_viewer()
        } else if event_name == "load_custom_views"@ {
            self.load_custom_views()
        } else if event_name == "load_dashboard_views"@ {
            self.load_dashboard_views()
        } else if event_name == "paginate_dashboard_view"@ {
            self.paginate_dashboard_view()
        } else if event_name == "load_issue_op_data"@ {
            self.load_issue_op_data()
        } else if event_name == "update_issue"@ {
            self.update_issue()
        } else {
            self.no_op()
        }
    }
}

impl App {
    /// Goes to another screen. `cached_view_list` is the view list that was
    /// saved earlier, if one was found.
    pub fn change_route(&mut self, route: Route, cached_view_list: Option<Vec<Option<CustomView>>>)
        -> (res: Vec<IOEvent>)
        ensures
            final(self)@ == old(self)@.change_route(route, cached_view_list.deep_view()).state,
            res.deep_view() == old(self)@.change_route(route, cached_view_list.deep_view()).requests,
            old(self)@.well_formed() ==> final(self)@.well_formed(),
    {
        let requests = match route {
            Route::ConfigInterface => {
                self.actions.unselect();
                no_requests()
            },
            Route::ActionSelect => {
                self.actions.next();
                if !self.view_list_cache_read_attempted {
                    match cached_view_list {
                        Some(list) => {
                            if list.len() == VIEW_SLOT_CAPACITY {
                                self.linear_dashboard_view_list = list;
                            }
                        },
                        None => {},
                    }
                }
                self.view_list_cache_read_attempted = true;
                self.load_dashboard_views()
            },
            Route::DashboardViewDisplay => {
                self.actions.unselect();
                self.linear_custom_view_select = LinearCustomViewSelect::default();
                self.linear_selected_custom_view_idx = None;
                self.linear_custom_view_cursor = GraphQLCursor::default();
                self.linear_dashboard_view_list_selected = true;
                self.load_custom_views()
            },
        };
        self.route = route;
        requests
    }

    /// Handles the event with the given name; an unknown name does nothing.
    pub fn dispatch_event(&mut self, event_name: &str) -> (res: Vec<IOEvent>)
        ensures
            final(self)@ == old(self)@.dispatch_event(event_name@).state,
            res.deep_view() == old(self)@.dispatch_event(event_name@).requests,
            old(self)@.well_formed() ==> final(self)@.well_formed(),
    {
        if same_text(event_name, "load_viewer") {
            self.load_viewer()
        } else if same_text(event_name, "load_custom_views") {
            self.load_custom_views()
        } else if same_text(event_name, "load_dashboard_views") {
            self.load_dashboard_views()
        } else if same_text(event_name, "paginate_dashboard_view") {
            self.paginate_dashboard_view()
        } else if same_text(event_name, "load_issue_op_data") {
            self.load_issue_op_data()
        } else if same_text(event_name, "update_issue") {
            self.update_issue()
        } else {
            no_requests()
        }
    }
}

/// A fetch asked for a panel that is loading is a no-op: the panel's
/// records, cursor and counter stay as they are, as does everything else,
/// and no request is sent. The same holds of the loads of saved views and of
/// values while their guards are held.
pub proof fn lemma_guard_dedups(app: AppView)
    ensures
        app.view_panel_to_paginate < app.linear_dashboard_view_panel_list.len()
            && app.linear_dashboard_view_panel_list[app.view_panel_to_paginate as int] is Some
            && app.linear_dashboard_view_panel_list[app.view_panel_to_paginate as int]->0.loading
            ==> app.paginate_dashboard_view() == app.no_op() && app.dispatch_event(
            "paginate_dashboard_view"@,
        ) == app.no_op(),
        app.linear_custom_view_select.loading ==> app.load_custom_views() == app.no_op()
            && app.dispatch_event("load_custom_views"@) == app.no_op(),
        app.linear_issue_op_interface.loading ==> app.load_issue_op_data() == app.no_op()
            && app.dispatch_event("load_issue_op_data"@) == app.no_op(),
{
    reveal_strlit("load_viewer");
    reveal_strlit("load_custom_views");
    reveal_strlit("load_dashboard_views");
    reveal_strlit("paginate_dashboard_view");
    reveal_strlit("load_issue_op_data");
    assert("load_viewer"@.len() == 11);
    assert("load_custom_views"@.len() == 17);
    assert("load_dashboard_views"@.len() == 20);
    assert("paginate_dashboard_view"@.len() == 23);
    assert("load_issue_op_data"@.len() == 18);
}

/// A waiting fetch whose view has no panel that is free is dropped when the
/// fetches are let go: no request is sent for it and no panel changes.
pub proof fn lemma_release_dedups(
    panels: Seq<Option<PanelView>>,
    bundles: Seq<BundleView>,
    count: int,
)
    requires
        0 < count <= bundles.len(),
        !has_idle(released(panels, bundles, count - 1).panels, bundles[count - 1].item_filter.id),
    ensures
        released(panels, bundles, count) == released(panels, bundles, count - 1),
{
}

/// No fetch that waited is lost when the fetches are let go: afterwards no
/// panel of its view is free, so that a request for the view has been sent,
/// for this fetch or for one before it.
pub proof fn lemma_release_serves_all(
    panels: Seq<Option<PanelView>>,
    bundles: Seq<BundleView>,
    count: int,
    served: int,
)
    requires
        0 <= served < count <= bundles.len(),
    ensures
        !has_idle(released(panels, bundles, count).panels, bundles[served].item_filter.id),
    decreases count,
{
    let before = released(panels, bundles, count - 1);
    let last = bundles[count - 1].item_filter.id;
    if served < count - 1 {
        lemma_release_serves_all(panels, bundles, count - 1, served);
    }
    lemma_mark_leaves_none_idle(before.panels, last, bundles[served].item_filter.id);
}

/// Events keep the shape of the dashboard: six view slots, and one panel
/// place for each.
pub proof fn lemma_events_keep_shape(
    app: AppView,
    event_name: Seq<char>,
    route: Route,
    cached: Option<Seq<Option<CustomViewView>>>,
)
    requires
        app.well_formed(),
    ensures
        app.dispatch_event(event_name).state.well_formed(),
        app.release_view_loads().state.well_formed(),
        app.timezones_loaded().state.well_formed(),
        app.change_route(route, cached).state.well_formed(),
{
    let fitted = app.reconcile_panels();
    lemma_released_requests(
        fitted.linear_dashboard_view_panel_list,
        fitted.pending_view_loads,
        fitted.pending_view_loads.len() as int,
    );
    lemma_released_requests(
        app.linear_dashboard_view_panel_list,
        app.pending_view_loads,
        app.pending_view_loads.len() as int,
    );
    let adopted = AppView {
        actions: app.actions.next(),
        linear_dashboard_view_list: if app.adopts(cached) {
            cached->0
        } else {
            app.linear_dashboard_view_list
        },
        view_list_cache_read_attempted: true,
        ..app
    };
    let refitted = adopted.reconcile_panels();
    lemma_released_requests(
        refitted.linear_dashboard_view_panel_list,
        refitted.pending_view_loads,
        refitted.pending_view_loads.len() as int,
    );
}

} // verus!
