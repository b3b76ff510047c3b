//! View panels, and their reconciliation with the dashboard's view slots.
//!
//! A panel is the fetched state of one view. Which view it belongs to is
//! decided by the view's identifier alone, never by where the panel stands.

use crate::cursor::{CursorView, GraphQLCursor};
use crate::filter::{CustomView, CustomViewView};
use crate::search::{first_true, first_true_below, lemma_first_true, lemma_first_true_found};
use crate::requests::{ViewIssues, ViewIssuesView};
use crate::seqs::{lemma_deep_view_append, lemma_deep_view_push, lemma_deep_view_same};
use crate::types::{clone_issues, Issue, IssueRelatableObject, IssueView, RelatableView};
use vstd::prelude::*;

verus! {

/// The fetched state of one view.
#[derive(Debug, PartialEq, Eq)]
pub struct DashboardViewPanel {
    /// The view that the panel shows; never changed once the panel exists.
    pub filter: CustomView,
    /// The issues fetched so far.
    pub issue_table_data: Vec<Issue>,
    /// Where the next page starts; `None` before the first fetch.
    pub view_loader: Option<GraphQLCursor>,
    /// How many queries have been answered for this panel.
    pub request_num: u32,
    /// Whether a fetch for this panel is under way.
    pub loading: bool,
}

/// The view of [`DashboardViewPanel`]: what it holds, as mathematical values.
pub struct PanelView {
    pub filter: CustomViewView,
    pub issue_table_data: Seq<IssueView>,
    pub view_loader: Option<CursorView>,
    pub request_num: u32,
    pub loading: bool,
}

impl PanelView {
    /// The panel of a view of which nothing has been fetched.
    pub open spec fn with_filter(filter: CustomViewView) -> PanelView {
        PanelView {
            filter,
            issue_table_data: Seq::empty(),
            view_loader: None,
            request_num: 0,
            loading: false,
        }
    }

    /// Whether the panel belongs to the view with identifier `view_id`.
    pub open spec fn shows(self, view_id: Seq<char>) -> bool {
        self.filter.id == view_id
    }

    /// Whether the panel waits for the answer to a fetch of view `view_id`.
    pub open spec fn awaits(self, view_id: Seq<char>) -> bool {
        self.shows(view_id) && self.loading
    }

    /// Whether the panel can count `more` queries.
    pub open spec fn can_count(self, more: u32) -> bool {
        self.request_num + more <= u32::MAX
    }

    /// The panel after the answer to its fetch. The loading guard is given
    /// back in any case. An answer that failed changes nothing else; one
    /// that came puts its records behind those of the panel (`append`) or
    /// in their place, sets the cursor, and counts its queries.
    pub open spec fn settled(self, answer: Option<ViewIssuesView>, append: bool) -> PanelView {
        match answer {
            None => PanelView { loading: false, ..self },
            Some(fetched) => PanelView {
                issue_table_data: if append {
                    self.issue_table_data + fetched.issues
                } else {
                    fetched.issues
                },
                view_loader: Some(fetched.cursor),
                request_num: (self.request_num + fetched.request_num) as u32,
                loading: false,
                ..self
            },
        }
    }

    /// The panel after issue `issue_id` was set to `value`.
    pub open spec fn patched(self, issue_id: Seq<char>, value: RelatableView) -> PanelView {
        PanelView {
            issue_table_data: self.issue_table_data.map_values(
                |issue: IssueView| issue.patched(issue_id, value),
            ),
            ..self
        }
    }

    /// Whether the panel holds a record of issue `issue_id`.
    pub open spec fn holds(self, issue_id: Seq<char>) -> bool {
        exists|row: int|
            0 <= row < self.issue_table_data.len() && (#[trigger] self.issue_table_data[row]).has_id(
                issue_id,
            )
    }
}

impl DeepView for DashboardViewPanel {
    type V = PanelView;

    open spec fn deep_view(&self) -> PanelView {
        PanelView {
            filter: self.filter@,
            issue_table_data: self.issue_table_data.deep_view(),
            view_loader: self.view_loader.deep_view(),
            request_num: self.request_num,
            loading: self.loading,
        }
    }
}

impl View for DashboardViewPanel {
    type V = PanelView;

    open spec fn view(&self) -> PanelView {
        self.deep_view()
    }
}

impl Clone for DashboardViewPanel {
    fn clone(&self) -> (res: Self)
        ensures
            res@ == self@,
    {
        let issues = clone_issues(&self.issue_table_data);
        proof {
            lemma_deep_view_same(issues, self.issue_table_data);
        }
        DashboardViewPanel {
            filter: self.filter.clone(),
            issue_table_data: issues,
            view_loader: match &self.view_loader {
                Some(cursor) => Some(cursor.clone()),
                None => None,
            },
            request_num: self.request_num,
            loading: self.loading,
        }
    }
}

impl DashboardViewPanel {
    /// The panel of a view of which nothing has been fetched.
    pub fn with_filter(filter: CustomView) -> (res: Self)
        ensures
            res@ == PanelView::with_filter(filter@),
    {
        let panel = DashboardViewPanel {
            filter,
            issue_table_data: Vec::new(),
            view_loader: None,
            request_num: 0,
            loading: false,
        };
        assert(panel.issue_table_data.deep_view() =~= Seq::empty());
        panel
    }
}

impl DashboardViewPanel {
    /// Takes in the answer to the panel's fetch.
    pub fn settle(&mut self, answer: &Option<ViewIssues>, append: bool)
        requires
            answer matches Some(fetched) ==> old(self)@.can_count(fetched.request_num),
        ensures
            final(self)@ == old(self)@.settled(answer.deep_view(), append),
    {
        self.loading = false;
        match answer {
            None => {},
            Some(fetched) => {
                let mut issues = clone_issues(&fetched.issues);
                proof {
                    lemma_deep_view_same(issues, fetched.issues);
                }
                if append {
                    let ghost before = self.issue_table_data;
                    let ghost added = issues;
                    self.issue_table_data.append(&mut issues);
                    proof {
                        lemma_deep_view_append(before, added, self.issue_table_data);
                    }
                } else {
                    self.issue_table_data = issues;
                }
                self.view_loader = Some(fetched.cursor.clone());
                self.request_num = self.request_num + fetched.request_num;
            },
        }
    }

    /// Sets the field that `value` belongs to in every record of issue
    /// `issue_id`.
    pub fn patch(&mut self, issue_id: &String, value: &IssueRelatableObject)
        ensures
            final(self)@ == old(self)@.patched(issue_id@, value@),
    {
        let mut row: usize = 0;
        while row < self.issue_table_data.len()
            invariant
                row <= self.issue_table_data.len(),
                self.issue_table_data.len() == old(self).issue_table_data.len(),
                forall|j: int|
                    0 <= j < row ==> (#[trigger] self.issue_table_data@[j])@ == old(
                        self,
                    ).issue_table_data@[j]@.patched(issue_id@, value@),
                forall|j: int|
                    row <= j < self.issue_table_data.len() ==> #[trigger] self.issue_table_data@[j]
                        == old(self).issue_table_data@[j],
                *self == (DashboardViewPanel {
                    issue_table_data: self.issue_table_data,
                    ..*old(self)
                }),
            decreases self.issue_table_data.len() - row,
        {
            if self.issue_table_data[row].has_id(issue_id) {
                self.issue_table_data[row].set_value(value);
            }
            row += 1;
        }
        assert(self@.issue_table_data =~= old(self)@.patched(issue_id@, value@).issue_table_data);
    }
}

/// The panels after the answer to a fetch of view `view_id`: every panel
/// that waited for it takes it in, the others stay as they are.
pub open spec fn settled_one(
    panel: Option<PanelView>,
    view_id: Seq<char>,
    answer: Option<ViewIssuesView>,
    append: bool,
) -> Option<PanelView> {
    match panel {
        Some(p) => if p.awaits(view_id) {
            Some(p.settled(answer, append))
        } else {
            Some(p)
        },
        None => None,
    }
}

/// The panel list after the answer to a fetch of view `view_id`.
pub open spec fn settled_panels(
    panels: Seq<Option<PanelView>>,
    view_id: Seq<char>,
    answer: Option<ViewIssuesView>,
    append: bool,
) -> Seq<Option<PanelView>> {
    panels.map_values(|p: Option<PanelView>| settled_one(p, view_id, answer, append))
}

/// Whether every panel that waits for view `view_id` can count `more` queries.
pub open spec fn all_can_count(panels: Seq<Option<PanelView>>, view_id: Seq<char>, more: u32)
    -> bool {
    forall|at: int|
        0 <= at < panels.len() && (#[trigger] panels[at]) is Some && panels[at]->0.awaits(view_id)
            ==> panels[at]->0.can_count(more)
}

/// Says whether every panel that waits for the view with identifier
/// `view_id` can count `more` queries.
pub fn can_all_count(panels: &Vec<Option<DashboardViewPanel>>, view_id: &String, more: u32) -> (res:
    bool)
    ensures
        res == all_can_count(panels.deep_view(), view_id@, more),
{
    let mut at: usize = 0;
    while at < panels.len()
        invariant
            at <= panels.len(),
            forall|j: int|
                0 <= j < at && (#[trigger] panels.deep_view()[j]) is Some && panels.deep_view()[j]->0.awaits(
                    view_id@,
                ) ==> panels.deep_view()[j]->0.can_count(more),
        decreases panels.len() - at,
    {
        match &panels[at] {
            Some(panel) => {
                if panel.loading && panel.filter.id == *view_id && panel.request_num > u32::MAX
                    - more {
                    assert(panels.deep_view()[at as int]->0.awaits(view_id@));
                    return false;
                }
            },
            None => {},
        }
        at += 1;
    }
    true
}

/// The panels after issue `issue_id` was set to `value`.
pub open spec fn patched_one(panel: Option<PanelView>, issue_id: Seq<char>, value: RelatableView)
    -> Option<PanelView> {
    match panel {
        Some(p) => Some(p.patched(issue_id, value)),
        None => None,
    }
}

/// The panel list after issue `issue_id` was set to `value`.
pub open spec fn patched_panels(
    panels: Seq<Option<PanelView>>,
    issue_id: Seq<char>,
    value: RelatableView,
) -> Seq<Option<PanelView>> {
    panels.map_values(|p: Option<PanelView>| patched_one(p, issue_id, value))
}

/// Hands the answer to a fetch of the view with identifier `view_id` to
/// every panel that waits for it.
pub fn settle_panels(
    panels: &mut Vec<Option<DashboardViewPanel>>,
    view_id: &String,
    answer: &Option<ViewIssues>,
    append: bool,
)
    requires
        answer matches Some(fetched) ==> all_can_count(
            old(panels).deep_view(),
            view_id@,
            fetched.request_num,
        ),
    ensures
        final(panels).deep_view() == settled_panels(
            old(panels).deep_view(),
            view_id@,
            answer.deep_view(),
            append,
        ),
{
    let mut at: usize = 0;
    while at < panels.len()
        invariant
            at <= panels.len(),
            panels.len() == old(panels).len(),
            answer matches Some(fetched) ==> all_can_count(
                old(panels).deep_view(),
                view_id@,
                fetched.request_num,
            ),
            forall|j: int|
                0 <= j < at ==> (#[trigger] panels@[j]).deep_view() == settled_one(
                    old(panels)@[j].deep_view(),
                    view_id@,
                    answer.deep_view(),
                    append,
                ),
            forall|j: int| at <= j < panels.len() ==> #[trigger] panels@[j] == old(panels)@[j],
        decreases panels.len() - at,
    {
        assert(old(panels).deep_view()[at as int] == old(panels)@[at as int].deep_view());
        match &mut panels[at] {
            Some(panel) => {
                if panel.loading && panel.filter.id == *view_id {
                    panel.settle(answer, append);
                }
            },
            None => {},
        }
        at += 1;
    }
    assert(panels.deep_view() =~= settled_panels(
        old(panels).deep_view(),
        view_id@,
        answer.deep_view(),
        append,
    ));
}

/// Sets the field that `value` belongs to in every record of issue
/// `issue_id`, in every panel.
pub fn patch_panels(
    panels: &mut Vec<Option<DashboardViewPanel>>,
    issue_id: &String,
    value: &IssueRelatableObject,
)
    ensures
        final(panels).deep_view() == patched_panels(old(panels).deep_view(), issue_id@, value@),
{
    let mut at: usize = 0;
    while at < panels.len()
        invariant
            at <= panels.len(),
            panels.len() == old(panels).len(),
            forall|j: int|
                0 <= j < at ==> (#[trigger] panels@[j]).deep_view() == patched_one(
                    old(panels)@[j].deep_view(),
                    issue_id@,
                    value@,
                ),
            forall|j: int| at <= j < panels.len() ==> #[trigger] panels@[j] == old(panels)@[j],
        decreases panels.len() - at,
    {
        match &mut panels[at] {
            Some(panel) => {
                panel.patch(issue_id, value);
            },
            None => {},
        }
        at += 1;
    }
    assert(panels.deep_view() =~= patched_panels(old(panels).deep_view(), issue_id@, value@));
}

/// For each place of a panel list, whether a panel of view `view_id` stands there.
pub open spec fn shown_at(panels: Seq<Option<PanelView>>, view_id: Seq<char>) -> Seq<bool> {
    panels.map_values(|p: Option<PanelView>| p matches Some(panel) && panel.shows(view_id))
}

/// The first place at which a panel of view `view_id` stands.
pub open spec fn panel_of(panels: Seq<Option<PanelView>>, view_id: Seq<char>) -> Option<int> {
    first_true(shown_at(panels, view_id))
}

/// The panel that a slot gets: none for an empty slot; the panel that its
/// view already has, wherever that stood; a fresh one if the view has none.
pub open spec fn reconciled_slot(slot: Option<CustomViewView>, panels: Seq<Option<PanelView>>)
    -> Option<PanelView> {
    match slot {
        None => None,
        Some(view) => match panel_of(panels, view.id) {
            Some(at) => panels[at],
            None => Some(PanelView::with_filter(view)),
        },
    }
}

/// The panel list that the slots get, place by place.
pub open spec fn reconciled(slots: Seq<Option<CustomViewView>>, panels: Seq<Option<PanelView>>)
    -> Seq<Option<PanelView>> {
    slots.map_values(|slot: Option<CustomViewView>| reconciled_slot(slot, panels))
}

/// Whether a slot holds a view of which no panel exists yet, so that its
/// panel has to be fetched.
pub open spec fn needs_fetch(slot: Option<CustomViewView>, panels: Seq<Option<PanelView>>) -> bool {
    slot matches Some(view) && panel_of(panels, view.id) is None
}

/// Whether the panel at `place` is the first of its view in the list.
pub open spec fn first_of_view(panels: Seq<Option<PanelView>>, place: int) -> bool {
    &&& 0 <= place < panels.len()
    &&& panels[place] is Some
    &&& forall|j: int|
        0 <= j < place && (#[trigger] panels[j]) is Some ==> !panels[j]->0.shows(
            panels[place]->0.filter.id,
        )
}

/// Whether no two panels of a list belong to the same view.
pub open spec fn distinct_views(panels: Seq<Option<PanelView>>) -> bool {
    forall|i: int, j: int|
        0 <= i < j < panels.len() && panels[i] is Some && panels[j] is Some ==> panels[i]->0.filter.id
            != panels[j]->0.filter.id
}

/// Where no two panels belong to the same view, every panel is the first
/// of its view.
pub proof fn lemma_distinct_views_are_first(panels: Seq<Option<PanelView>>, place: int)
    requires
        distinct_views(panels),
        0 <= place < panels.len(),
        panels[place] is Some,
    ensures
        first_of_view(panels, place),
{
}

/// Reconciliation keeps each view's panel whole. Where a slot holds a view
/// that has a panel, the slot gets that very panel (its filter, records,
/// cursor and counter) whatever place it stood at before, and no fetch is
/// asked for it. If several panels belong to the view, it is the first of
/// them that the slot gets.
pub proof fn lemma_reconcile_preserves_identity(
    slots: Seq<Option<CustomViewView>>,
    panels: Seq<Option<PanelView>>,
    slot: int,
    place: int,
)
    requires
        0 <= slot < slots.len(),
        slots[slot] is Some,
        first_of_view(panels, place),
        panels[place]->0.shows(slots[slot]->0.id),
    ensures
        reconciled(slots, panels)[slot] == panels[place],
        !needs_fetch(slots[slot], panels),
{
    let hits = shown_at(panels, slots[slot]->0.id);
    lemma_first_true(hits);
    assert(hits[place]);
}

/// Reconciliation gives every slot that holds a view a panel of that view,
/// and an empty slot none.
pub proof fn lemma_reconcile_follows_slots(
    slots: Seq<Option<CustomViewView>>,
    panels: Seq<Option<PanelView>>,
    slot: int,
)
    requires
        0 <= slot < slots.len(),
    ensures
        reconciled(slots, panels).len() == slots.len(),
        slots[slot] is None ==> reconciled(slots, panels)[slot] is None,
        slots[slot] matches Some(view) ==> reconciled(slots, panels)[slot] matches Some(panel)
            && panel.shows(view.id),
        needs_fetch(slots[slot], panels) ==> reconciled(slots, panels)[slot] == Some(
            PanelView::with_filter(slots[slot]->0),
        ),
{
    if slots[slot] is Some {
        lemma_first_true(shown_at(panels, slots[slot]->0.id));
    }
}

/// Finds the first panel of the view with identifier `view_id`.
pub fn find_panel(panels: &Vec<Option<DashboardViewPanel>>, view_id: &String) -> (res: Option<
    usize,
>)
    ensures
        match res {
            Some(at) => {
                &&& at < panels.len()
                &&& panels[at as int] is Some
                &&& panel_of(panels.deep_view(), view_id@) == Some(at as int)
            },
            None => panel_of(panels.deep_view(), view_id@) is None,
        },
{
    let ghost hits = shown_at(panels.deep_view(), view_id@);
    let mut at: usize = 0;
    while at < panels.len()
        invariant
            at <= panels.len(),
            hits == shown_at(panels.deep_view(), view_id@),
            first_true_below(hits, at as int) is None,
        decreases panels.len() - at,
    {
        match &panels[at] {
            Some(panel) => {
                if panel.filter.id == *view_id {
                    proof {
                        lemma_first_true_found(hits, at as int, hits.len() as int);
                    }
                    return Some(at);
                }
            },
            None => {},
        }
        at += 1;
    }
    None
}

/// The places below `bound` whose slot needs a fetch, in rising order.
pub open spec fn fetch_places(
    slots: Seq<Option<CustomViewView>>,
    panels: Seq<Option<PanelView>>,
    bound: int,
) -> Seq<usize>
    decreases bound,
{
    if bound <= 0 {
        Seq::empty()
    } else if needs_fetch(slots[bound - 1], panels) {
        fetch_places(slots, panels, bound - 1).push((bound - 1) as usize)
    } else {
        fetch_places(slots, panels, bound - 1)
    }
}

/// `fetch_places` lists each place whose slot needs a fetch, once, and no
/// other place.
pub proof fn lemma_fetch_places(
    slots: Seq<Option<CustomViewView>>,
    panels: Seq<Option<PanelView>>,
    bound: int,
)
    requires
        bound <= slots.len(),
        bound <= usize::MAX,
    ensures
        ({
            let list = fetch_places(slots, panels, bound);
            &&& forall|k: int| 0 <= k < list.len() ==> 0 <= #[trigger] list[k] < bound
            &&& forall|k: int, l: int| 0 <= k < l < list.len() ==> list[k] < list[l]
            &&& forall|i: int|
                0 <= i < bound ==> (needs_fetch(#[trigger] slots[i], panels) <==> list.contains(
                    i as usize,
                ))
        }),
    decreases bound,
{
    if bound > 0 {
        lemma_fetch_places(slots, panels, bound - 1);
        let before = fetch_places(slots, panels, bound - 1);
        let list = fetch_places(slots, panels, bound);
        if needs_fetch(slots[bound - 1], panels) {
            assert(list[list.len() - 1] == (bound - 1) as usize);
            assert forall|i: int| 0 <= i < bound implies (needs_fetch(#[trigger] slots[i], panels)
                <==> list.contains(i as usize)) by {
                if i < bound - 1 && before.contains(i as usize) {
                    let k = choose|k: int| 0 <= k < before.len() && before[k] == i as usize;
                    assert(list[k] == i as usize);
                }
            }
        }
    }
}

/// Fits the panel list to the view slots.
///
/// Returns the new panel list, one place per slot, and the places whose
/// panel is new and has to be fetched, in rising order.
pub fn reconcile(slots: &Vec<Option<CustomView>>, panels: &Vec<Option<DashboardViewPanel>>) -> (res:
    (Vec<Option<DashboardViewPanel>>, Vec<usize>))
    ensures
        res.0.deep_view() == reconciled(slots.deep_view(), panels.deep_view()),
        res.1@ == fetch_places(slots.deep_view(), panels.deep_view(), slots.len() as int),
{
    let mut next: Vec<Option<DashboardViewPanel>> = Vec::new();
    let mut fetches: Vec<usize> = Vec::new();
    let mut i: usize = 0;
    while i < slots.len()
        invariant
            i <= slots.len(),
            next.deep_view() == reconciled(slots.deep_view(), panels.deep_view()).take(i as int),
            fetches@ == fetch_places(slots.deep_view(), panels.deep_view(), i as int),
        decreases slots.len() - i,
    {
        let ghost next_before = next;
        let entry = match &slots[i] {
            None => None,
            Some(view) => match find_panel(panels, &view.id) {
                Some(at) => match &panels[at] {
                    Some(panel) => Some(panel.clone()),
                    None => None,
                },
                None => {
                    fetches.push(i);
                    Some(DashboardViewPanel::with_filter(view.clone()))
                },
            },
        };
        next.push(entry);
        proof {
            lemma_deep_view_push(next_before, next, entry);
            assert(next.deep_view() =~= reconciled(slots.deep_view(), panels.deep_view()).take(
                i + 1,
            ));
        }
        i += 1;
    }
    assert(reconciled(slots.deep_view(), panels.deep_view()).take(slots.len() as int)
        =~= reconciled(slots.deep_view(), panels.deep_view()));
    (next, fetches)
}

/// For each place, whether a panel of view `view_id` stands there that is
/// free to fetch.
pub open spec fn idle_at(panels: Seq<Option<PanelView>>, view_id: Seq<char>) -> Seq<bool> {
    panels.map_values(
        |p: Option<PanelView>| p matches Some(panel) && panel.shows(view_id) && !panel.loading,
    )
}

/// Whether the view has a panel that is free to fetch.
pub open spec fn has_idle(panels: Seq<Option<PanelView>>, view_id: Seq<char>) -> bool {
    first_true(idle_at(panels, view_id)) is Some
}

/// The panel with its loading guard taken, if it belongs to view `view_id`.
pub open spec fn marked_loading_one(panel: Option<PanelView>, view_id: Seq<char>) -> Option<
    PanelView,
> {
    match panel {
        Some(p) => if p.shows(view_id) {
            Some(PanelView { loading: true, ..p })
        } else {
            Some(p)
        },
        None => None,
    }
}

/// The panels with the loading guard of every panel of view `view_id` taken.
pub open spec fn marked_loading(panels: Seq<Option<PanelView>>, view_id: Seq<char>) -> Seq<
    Option<PanelView>,
> {
    panels.map_values(|p: Option<PanelView>| marked_loading_one(p, view_id))
}

/// Where no panel of the view is free, taking the guards changes nothing.
pub proof fn lemma_mark_without_idle(panels: Seq<Option<PanelView>>, view_id: Seq<char>)
    requires
        !has_idle(panels, view_id),
    ensures
        marked_loading(panels, view_id) == panels,
{
    lemma_first_true(idle_at(panels, view_id));
    assert(marked_loading(panels, view_id) =~= panels) by {
        assert forall|j: int| 0 <= j < panels.len() implies marked_loading(panels, view_id)[j]
            == panels[j] by {
            assert(!idle_at(panels, view_id)[j]);
        }
    }
}

/// Once the guards of a view are taken, none of its panels is free; and a
/// view that had no free panel before has none after.
pub proof fn lemma_mark_leaves_none_idle(
    panels: Seq<Option<PanelView>>,
    view_id: Seq<char>,
    other_id: Seq<char>,
)
    ensures
        !has_idle(marked_loading(panels, view_id), view_id),
        !has_idle(panels, other_id) ==> !has_idle(marked_loading(panels, view_id), other_id),
{
    let marked = marked_loading(panels, view_id);
    lemma_first_true(idle_at(marked, view_id));
    lemma_first_true(idle_at(marked, other_id));
    lemma_first_true(idle_at(panels, other_id));
    if !has_idle(panels, other_id) {
        assert forall|j: int| 0 <= j < marked.len() implies !idle_at(marked, other_id)[j] by {
            assert(!idle_at(panels, other_id)[j]);
        }
    }
}

/// Takes the loading guard of every panel of the view with identifier
/// `view_id`, and says whether one of them was free.
pub fn mark_loading(panels: &mut Vec<Option<DashboardViewPanel>>, view_id: &String) -> (res: bool)
    ensures
        res == has_idle(old(panels).deep_view(), view_id@),
        final(panels).deep_view() == marked_loading(old(panels).deep_view(), view_id@),
{
    let ghost hits = idle_at(panels.deep_view(), view_id@);
    let mut found = false;
    let mut at: usize = 0;
    while at < panels.len()
        invariant
            at <= panels.len(),
            panels.len() == old(panels).len(),
            hits == idle_at(old(panels).deep_view(), view_id@),
            found == (first_true_below(hits, at as int) is Some),
            forall|j: int|
                0 <= j < at ==> (#[trigger] panels@[j]).deep_view() == marked_loading_one(
                    old(panels)@[j].deep_view(),
                    view_id@,
                ),
            forall|j: int| at <= j < panels.len() ==> #[trigger] panels@[j] == old(panels)@[j],
        decreases panels.len() - at,
    {
        match &mut panels[at] {
            Some(panel) => {
                if panel.filter.id == *view_id {
                    if !panel.loading {
                        found = true;
                    }
                    panel.loading = true;
                }
            },
            None => {},
        }
        at += 1;
    }
    assert(panels.deep_view() =~= marked_loading(old(panels).deep_view(), view_id@));
    found
}

} // verus!
