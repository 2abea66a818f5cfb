//! What the interactive view shows, and how key presses change it.

use crate::model::Model;
use std::collections::HashSet;
use vstd::prelude::*;
use vstd::string::StringExecFns;

verus! {

/// The column by which the process list is ordered.
#[derive(Clone, Copy, PartialEq, Eq, Structural, Debug)]
pub enum SortOrder {
    PID,
    Name,
    CPU,
    Memory,
    Disk,
}

/// Which list fills the main area of the screen.
#[derive(Debug, PartialEq, Eq)]
pub enum MainViewState {
    Cgroup,
    Process,
    ProcessZoomedIntoCgroup(String),
}

impl Clone for MainViewState {
    fn clone(&self) -> (r: MainViewState)
        ensures
            r@ == self@,
    {
        match self {
            MainViewState::Cgroup => MainViewState::Cgroup,
            MainViewState::Process => MainViewState::Process,
            MainViewState::ProcessZoomedIntoCgroup(cgroup) => MainViewState::ProcessZoomedIntoCgroup(
                cgroup.clone(),
            ),
        }
    }
}

/// A main view state with the zoomed cgroup as a sequence of characters.
pub enum MainView {
    Cgroup,
    Process,
    ProcessZoomedIntoCgroup(Seq<char>),
}

impl View for MainViewState {
    type V = MainView;

    open spec fn view(&self) -> MainView {
        match *self {
            MainViewState::Cgroup => MainView::Cgroup,
            MainViewState::Process => MainView::Process,
            MainViewState::ProcessZoomedIntoCgroup(cgroup) => MainView::ProcessZoomedIntoCgroup(
                cgroup@,
            ),
        }
    }
}

/// The two lists that can be brought to the front of the main area.
#[derive(Clone, Copy, PartialEq, Eq, Structural, Debug)]
pub enum Panel {
    ProcessView,
    CgroupView,
}

/// The state that a press of the zoom key leads to: zooming into the
/// selected cgroup from the cgroup list, back out of a zoom to the cgroup
/// list, and no change in the process list.
pub open spec fn zoom_toggled(state: MainView, selection: Seq<char>) -> MainView {
    match state {
        MainView::ProcessZoomedIntoCgroup(_) => MainView::Cgroup,
        MainView::Cgroup => MainView::ProcessZoomedIntoCgroup(selection),
        MainView::Process => MainView::Process,
    }
}

/// The list that a state shows in front.
pub open spec fn front_panel(state: MainView) -> Panel {
    match state {
        MainView::Process | MainView::ProcessZoomedIntoCgroup(_) => Panel::ProcessView,
        MainView::Cgroup => Panel::CgroupView,
    }
}

impl MainViewState {
    /// The state after the zoom key was pressed with `current_selection`
    /// selected in the cgroup list.
    pub fn toggle_zoom(&self, current_selection: &String) -> (next: MainViewState)
        ensures
            next@ == zoom_toggled(self@, current_selection@),
    {
        match self {
            MainViewState::ProcessZoomedIntoCgroup(_) => MainViewState::Cgroup,
            MainViewState::Cgroup => MainViewState::ProcessZoomedIntoCgroup(
                current_selection.clone(),
            ),
            MainViewState::Process => MainViewState::Process,
        }
    }

    /// The list to bring to the front for this state.
    pub fn panel(&self) -> (panel: Panel)
        ensures
            panel == front_panel(self@),
    {
        match self {
            MainViewState::Process | MainViewState::ProcessZoomedIntoCgroup(_) => Panel::ProcessView,
            MainViewState::Cgroup => Panel::CgroupView,
        }
    }
}

/// What is on the screen.
pub struct ViewState {
    pub model: Model,
    pub sort_order: SortOrder,
    pub collapsed_cgroups: HashSet<String>,
    pub current_selected_cgroup: String,
    pub main_view_state: MainViewState,
    pub cgroup_filter: Option<String>,
    pub process_filter: Option<String>,
}

/// The cgroup that is selected before the user selects one.
pub open spec fn root_selection() -> Seq<char> {
    seq!['<', 'r', 'o', 'o', 't', '>']
}

impl ViewState {
    /// The state in which the view starts: the cgroup list in front and
    /// all of it unfolded, the root selected, processes ordered by their
    /// id, nothing filtered.
    pub fn new(model: Model) -> (r: ViewState)
        ensures
            r.model == model,
            r.sort_order == SortOrder::PID,
            r.collapsed_cgroups@ == Set::<String>::empty(),
            r.current_selected_cgroup@ == root_selection(),
            r.main_view_state@ == MainView::Cgroup,
            r.cgroup_filter is None,
            r.process_filter is None,
    {
        proof {
            reveal_strlit("<root>");
            assert("<root>"@ =~= root_selection());
        }
        ViewState {
            model,
            sort_order: SortOrder::PID,
            collapsed_cgroups: HashSet::new(),
            current_selected_cgroup: String::from_str("<root>"),
            main_view_state: MainViewState::Cgroup,
            cgroup_filter: None,
            process_filter: None,
        }
    }

    /// Takes the model that a step through the samples returned, if it
    /// returned one. Tells whether the screen needs to be drawn again.
    pub fn show(&mut self, data: Option<Model>) -> (refresh: bool)
        ensures
            refresh == data is Some,
            final(self).model == match data {
                Some(model) => model,
                None => old(self).model,
            },
            final(self).sort_order == old(self).sort_order,
            final(self).collapsed_cgroups == old(self).collapsed_cgroups,
            final(self).current_selected_cgroup == old(self).current_selected_cgroup,
            final(self).main_view_state == old(self).main_view_state,
            final(self).cgroup_filter == old(self).cgroup_filter,
            final(self).process_filter == old(self).process_filter,
    {
        match data {
            Some(model) => {
                self.model = model;
                true
            },
            None => false,
        }
    }

    /// Orders the processes by another column. Tells whether the order
    /// changed, so that the screen needs to be drawn again.
    pub fn update_sort_order(&mut self, sort_order: SortOrder) -> (refresh: bool)
        ensures
            refresh == (old(self).sort_order != sort_order),
            final(self).sort_order == sort_order,
            final(self).model == old(self).model,
            final(self).collapsed_cgroups == old(self).collapsed_cgroups,
            final(self).current_selected_cgroup == old(self).current_selected_cgroup,
            final(self).main_view_state == old(self).main_view_state,
            final(self).cgroup_filter == old(self).cgroup_filter,
            final(self).process_filter == old(self).process_filter,
    {
        if self.sort_order != sort_order {
            self.sort_order = sort_order;
            true
        } else {
            false
        }
    }

    /// Brings the process list to the front.
    pub fn show_processes(&mut self)
        ensures
            final(self).main_view_state@ == MainView::Process,
            final(self).model == old(self).model,
            final(self).sort_order == old(self).sort_order,
            final(self).collapsed_cgroups == old(self).collapsed_cgroups,
            final(self).current_selected_cgroup == old(self).current_selected_cgroup,
            final(self).cgroup_filter == old(self).cgroup_filter,
            final(self).process_filter == old(self).process_filter,
    {
        self.main_view_state = MainViewState::Process;
    }

    /// Brings the cgroup list to the front.
    pub fn show_cgroups(&mut self)
        ensures
            final(self).main_view_state@ == MainView::Cgroup,
            final(self).model == old(self).model,
            final(self).sort_order == old(self).sort_order,
            final(self).collapsed_cgroups == old(self).collapsed_cgroups,
            final(self).current_selected_cgroup == old(self).current_selected_cgroup,
            final(self).cgroup_filter == old(self).cgroup_filter,
            final(self).process_filter == old(self).process_filter,
    {
        self.main_view_state = MainViewState::Cgroup;
    }

    /// Handles the zoom key: from the cgroup list into the processes of
    /// the selected cgroup, and from there back. Returns the list to bring
    /// to the front.
    pub fn zoom(&mut self) -> (panel: Panel)
        ensures
            final(self).main_view_state@ == zoom_toggled(
                old(self).main_view_state@,
                old(self).current_selected_cgroup@,
            ),
            panel == front_panel(final(self).main_view_state@),
            final(self).model == old(self).model,
            final(self).sort_order == old(self).sort_order,
            final(self).collapsed_cgroups == old(self).collapsed_cgroups,
            final(self).current_selected_cgroup == old(self).current_selected_cgroup,
            final(self).cgroup_filter == old(self).cgroup_filter,
            final(self).process_filter == old(self).process_filter,
    {
        let next_state = self.main_view_state.toggle_zoom(&self.current_selected_cgroup);
        let panel = next_state.panel();
        self.main_view_state = next_state;
        panel
    }
}

} // verus!
