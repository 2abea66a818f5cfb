use below::model::Model;
use below::sample::Sample;
use below::view::{MainViewState, Panel, SortOrder, ViewState};

fn some_model(timestamp: u64) -> Model {
    Model::new(timestamp, &Sample::default(), None)
}

#[test]
fn view_starts_on_the_cgroup_list() {
    let state = ViewState::new(some_model(1));
    assert_eq!(state.model.timestamp, 1);
    assert!(state.sort_order == SortOrder::PID);
    assert!(state.collapsed_cgroups.is_empty());
    assert_eq!(state.current_selected_cgroup, "<root>");
    assert_eq!(state.main_view_state, MainViewState::Cgroup);
    assert_eq!(state.cgroup_filter, None);
    assert_eq!(state.process_filter, None);
}

#[test]
fn zoom_key_toggles_between_cgroups_and_the_processes_of_one() {
    let mut state = ViewState::new(some_model(1));
    state.current_selected_cgroup = "system.slice".to_string();

    assert_eq!(state.zoom(), Panel::ProcessView);
    assert_eq!(
        state.main_view_state,
        MainViewState::ProcessZoomedIntoCgroup("system.slice".to_string())
    );

    assert_eq!(state.zoom(), Panel::CgroupView);
    assert_eq!(state.main_view_state, MainViewState::Cgroup);
}

#[test]
fn zoom_key_does_nothing_in_the_process_list() {
    let mut state = ViewState::new(some_model(1));
    state.show_processes();
    assert_eq!(state.main_view_state, MainViewState::Process);
    assert_eq!(state.zoom(), Panel::ProcessView);
    assert_eq!(state.main_view_state, MainViewState::Process);
    state.show_cgroups();
    assert_eq!(state.main_view_state, MainViewState::Cgroup);
}

#[test]
fn main_view_state_decides_the_front_panel() {
    assert_eq!(MainViewState::Cgroup.panel(), Panel::CgroupView);
    assert_eq!(MainViewState::Process.panel(), Panel::ProcessView);
    assert_eq!(
        MainViewState::ProcessZoomedIntoCgroup("a".to_string()).panel(),
        Panel::ProcessView
    );
    let selection = "workload.slice".to_string();
    assert_eq!(
        MainViewState::Cgroup.toggle_zoom(&selection),
        MainViewState::ProcessZoomedIntoCgroup(selection.clone())
    );
    assert_eq!(
        MainViewState::ProcessZoomedIntoCgroup("x".to_string()).toggle_zoom(&selection),
        MainViewState::Cgroup
    );
    assert_eq!(MainViewState::Process.toggle_zoom(&selection), MainViewState::Process);
    assert_eq!(
        MainViewState::ProcessZoomedIntoCgroup("x".to_string()).clone(),
        MainViewState::ProcessZoomedIntoCgroup("x".to_string())
    );
}

#[test]
fn sort_order_changes_ask_for_a_refresh() {
    let mut state = ViewState::new(some_model(1));
    assert!(!state.update_sort_order(SortOrder::PID));
    assert!(state.update_sort_order(SortOrder::CPU));
    assert!(state.sort_order == SortOrder::CPU);
    assert!(!state.update_sort_order(SortOrder::CPU));
    assert!(state.update_sort_order(SortOrder::Name));
    assert!(state.update_sort_order(SortOrder::Memory));
    assert!(state.update_sort_order(SortOrder::Disk));
    assert!(state.sort_order == SortOrder::Disk);
}

#[test]
fn a_step_without_a_model_keeps_the_screen() {
    let mut state = ViewState::new(some_model(1));
    assert!(!state.show(None));
    assert_eq!(state.model.timestamp, 1);
    assert!(state.show(Some(some_model(2))));
    assert_eq!(state.model.timestamp, 2);
}
