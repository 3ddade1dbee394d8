use kubetui::command::{command_for_key, Command, Key};
use kubetui::data::{Container, Pod, ResourceKind, Rows, Rs};
use kubetui::navigator::Navigator;

fn replica_sets(count: usize) -> Rows {
    let mut items = Vec::new();
    for i in 0..count {
        items.push(Rs {
            name: format!("replica-{i:03}"),
            description: "Deployment".to_string(),
            age: "200d".to_string(),
            pods: "4/4".to_string(),
            containers: "8/8".to_string(),
        });
    }
    Rows::ReplicaSet(items)
}

fn pods(count: usize) -> Rows {
    let mut items = Vec::new();
    for i in 0..count {
        items.push(Pod {
            name: format!("pod-{i:03}"),
            description: "Deployment Pod".to_string(),
            age: "200d".to_string(),
            containers: "2/2".to_string(),
        });
    }
    Rows::Pod(items)
}

fn containers(count: usize) -> Rows {
    let mut items = Vec::new();
    for i in 0..count {
        items.push(Container { name: format!("container-{i}"), description: "Pod Container".to_string() });
    }
    Rows::Container(items)
}

fn first_name(nav: &Navigator) -> Option<String> {
    match nav.active().get_items() {
        Rows::ReplicaSet(items) => items.first().map(|item| item.name.clone()),
        Rows::Pod(items) => items.first().map(|item| item.name.clone()),
        Rows::Container(items) => items.first().map(|item| item.name.clone()),
    }
}

#[test]
fn navigator_starts_at_the_replica_sets() {
    let nav = Navigator::new();
    assert_eq!(0, nav.depth());
    assert_eq!(ResourceKind::ReplicaSet, nav.active().kind());
    assert_eq!(20, nav.active().get_items().len());
    assert_eq!(Some(0), nav.active().get_state());
    assert_eq!(0, nav.active().get_color_index());
}

#[test]
fn drill_down_and_back_restores_the_parent() {
    for s in 0..5usize {
        let mut nav = Navigator::from_rows(replica_sets(5));
        for _ in 0..s {
            nav.apply(Command::SelectNext);
        }
        nav.apply(Command::CyclePaletteForward);
        assert_eq!(Some(s), nav.active().get_state());
        assert_eq!(s * 4, nav.active().get_scroll_state());

        nav.push_rows(ResourceKind::Pod, pods(3));
        assert_eq!(1, nav.depth());
        assert_eq!(ResourceKind::Pod, nav.active().kind());
        assert_eq!(Some(0), nav.active().get_state());
        assert_eq!(0, nav.active().get_scroll_state());
        assert_eq!(1, nav.active().get_color_index());
        nav.apply(Command::SelectNext);

        nav.pop();
        assert_eq!(0, nav.depth());
        assert_eq!(ResourceKind::ReplicaSet, nav.active().kind());
        assert_eq!(Some(s), nav.active().get_state());
        assert_eq!(s * 4, nav.active().get_scroll_state());
        assert_eq!(1, nav.active().get_color_index());
        assert_eq!(5, nav.active().get_items().len());
        assert_eq!(Some("replica-000".to_string()), first_name(&nav));
    }
}

#[test]
fn history_is_last_in_first_out() {
    let mut nav = Navigator::from_rows(replica_sets(4));
    nav.apply(Command::SelectNext);
    nav.push_rows(ResourceKind::Pod, pods(6));
    nav.apply(Command::SelectPrevious);
    assert_eq!(Some(5), nav.active().get_state());
    nav.push_rows(ResourceKind::Container, containers(2));
    assert_eq!(2, nav.depth());
    assert_eq!(ResourceKind::Container, nav.active().kind());
    assert_eq!(Some(0), nav.active().get_state());
    assert_eq!(2, nav.active().get_color_index());

    nav.pop();
    assert_eq!(1, nav.depth());
    assert_eq!(ResourceKind::Pod, nav.active().kind());
    assert_eq!(Some(5), nav.active().get_state());
    assert_eq!(20, nav.active().get_scroll_state());

    nav.pop();
    assert_eq!(0, nav.depth());
    assert_eq!(ResourceKind::ReplicaSet, nav.active().kind());
    assert_eq!(Some(1), nav.active().get_state());
    assert_eq!(4, nav.active().get_scroll_state());
}

#[test]
fn pop_without_history_changes_nothing() {
    let mut nav = Navigator::from_rows(replica_sets(3));
    nav.apply(Command::SelectNext);
    nav.apply(Command::SelectNext);
    nav.apply(Command::CyclePaletteBackward);
    nav.pop();
    assert_eq!(0, nav.depth());
    assert_eq!(ResourceKind::ReplicaSet, nav.active().kind());
    assert_eq!(Some(2), nav.active().get_state());
    assert_eq!(8, nav.active().get_scroll_state());
    assert_eq!(3, nav.active().get_color_index());
    assert_eq!(3, nav.active().get_items().len());
    assert!(!nav.apply(Command::Back));
    assert_eq!(0, nav.depth());
    assert_eq!(Some(2), nav.active().get_state());
}

#[test]
fn push_from_containers_changes_nothing() {
    let mut nav = Navigator::from_rows(replica_sets(3));
    nav.push_rows(ResourceKind::Pod, pods(3));
    nav.push_rows(ResourceKind::Container, containers(2));
    nav.apply(Command::SelectNext);
    assert_eq!(2, nav.depth());

    nav.push(ResourceKind::Container);
    assert_eq!(2, nav.depth());
    assert_eq!(ResourceKind::Container, nav.active().kind());
    assert_eq!(Some(1), nav.active().get_state());
    assert_eq!(Some("container-0".to_string()), first_name(&nav));

    nav.push_rows(ResourceKind::Container, containers(9));
    assert_eq!(2, nav.depth());
    assert_eq!(2, nav.active().get_items().len());
    assert_eq!(Some(1), nav.active().get_state());

    assert!(!nav.apply(Command::DrillDown));
    assert_eq!(2, nav.depth());
    assert_eq!(2, nav.active().get_items().len());
    assert_eq!(Some(1), nav.active().get_state());
}

#[test]
fn push_off_the_chain_changes_nothing() {
    let mut nav = Navigator::from_rows(replica_sets(3));
    nav.apply(Command::SelectNext);
    nav.push_rows(ResourceKind::Container, containers(2));
    assert_eq!(0, nav.depth());
    assert_eq!(ResourceKind::ReplicaSet, nav.active().kind());
    assert_eq!(Some(1), nav.active().get_state());
    nav.push_rows(ResourceKind::ReplicaSet, replica_sets(7));
    assert_eq!(0, nav.depth());
    assert_eq!(3, nav.active().get_items().len());
    nav.push(ResourceKind::ReplicaSet);
    assert_eq!(0, nav.depth());
    assert_eq!(3, nav.active().get_items().len());

    nav.push_rows(ResourceKind::Pod, pods(2));
    nav.push_rows(ResourceKind::ReplicaSet, replica_sets(7));
    nav.push_rows(ResourceKind::Pod, pods(5));
    assert_eq!(1, nav.depth());
    assert_eq!(ResourceKind::Pod, nav.active().kind());
    assert_eq!(2, nav.active().get_items().len());
}

#[test]
fn child_without_rows_leaves_the_navigator_usable() {
    let mut nav = Navigator::from_rows(replica_sets(3));
    nav.apply(Command::SelectNext);
    nav.push_rows(ResourceKind::Pod, pods(0));
    assert_eq!(1, nav.depth());
    assert_eq!(None, nav.active().get_state());
    nav.apply(Command::SelectNext);
    nav.apply(Command::SelectPrevious);
    assert_eq!(None, nav.active().get_state());
    assert_eq!(0, nav.active().get_scroll_state());
    nav.apply(Command::Back);
    assert_eq!(0, nav.depth());
    assert_eq!(Some(1), nav.active().get_state());
}

#[test]
fn child_with_rows_of_another_kind_is_empty() {
    let mut nav = Navigator::from_rows(replica_sets(3));
    nav.push_rows(ResourceKind::Pod, containers(2));
    assert_eq!(1, nav.depth());
    assert_eq!(ResourceKind::Pod, nav.active().kind());
    assert_eq!(0, nav.active().get_items().len());
    assert_eq!(None, nav.active().get_state());
    nav.pop();
    assert_eq!(Some(0), nav.active().get_state());

    let nav = Navigator::from_rows(pods(4));
    assert_eq!(ResourceKind::ReplicaSet, nav.active().kind());
    assert_eq!(0, nav.active().get_items().len());
    assert_eq!(None, nav.active().get_state());
}

#[test]
fn drill_down_is_supplied_with_fresh_rows() {
    let mut nav = Navigator::new();
    nav.push(ResourceKind::Pod);
    assert_eq!(1, nav.depth());
    assert_eq!(ResourceKind::Pod, nav.active().kind());
    assert_eq!(20, nav.active().get_items().len());
    assert_eq!(Some(0), nav.active().get_state());
    nav.push(ResourceKind::Container);
    assert_eq!(2, nav.depth());
    assert_eq!(ResourceKind::Container, nav.active().kind());
    assert_eq!(2, nav.active().get_items().len());
    assert_eq!(Some(0), nav.active().get_state());
}

#[test]
fn scenario_drill_down_select_and_back() {
    let mut nav = Navigator::new();
    assert_eq!(ResourceKind::ReplicaSet, nav.active().kind());
    assert_eq!(20, nav.active().get_items().len());
    assert_eq!(Some(0), nav.active().get_state());
    let replica_set = first_name(&nav);

    assert!(!nav.apply(Command::DrillDown));
    assert_eq!(ResourceKind::Pod, nav.active().kind());
    assert_eq!(Some(0), nav.active().get_state());
    assert_eq!(20, nav.active().get_items().len());
    assert_ne!(replica_set, first_name(&nav));

    for _ in 0..3 {
        assert!(!nav.apply(Command::SelectNext));
    }
    assert_eq!(Some(3), nav.active().get_state());
    assert_eq!(12, nav.active().get_scroll_state());

    assert!(!nav.apply(Command::Back));
    assert_eq!(ResourceKind::ReplicaSet, nav.active().kind());
    assert_eq!(Some(0), nav.active().get_state());
    assert_eq!(0, nav.active().get_scroll_state());
    assert_eq!(replica_set, first_name(&nav));
    assert_eq!(0, nav.depth());
}

#[test]
fn commands_act_on_the_table_shown() {
    let mut nav = Navigator::from_rows(replica_sets(3));
    assert!(!nav.apply(Command::SelectPrevious));
    assert_eq!(Some(2), nav.active().get_state());
    assert!(!nav.apply(Command::SelectNext));
    assert_eq!(Some(0), nav.active().get_state());
    assert!(!nav.apply(Command::CyclePaletteForward));
    assert_eq!(1, nav.active().get_color_index());
    assert!(!nav.apply(Command::CyclePaletteBackward));
    assert!(!nav.apply(Command::CyclePaletteBackward));
    assert_eq!(3, nav.active().get_color_index());
}

#[test]
fn quit_is_signalled_and_changes_nothing() {
    let mut nav = Navigator::from_rows(replica_sets(3));
    nav.apply(Command::SelectNext);
    assert!(nav.apply(Command::Quit));
    assert_eq!(0, nav.depth());
    assert_eq!(Some(1), nav.active().get_state());
    assert_eq!(0, nav.active().get_color_index());
}

#[test]
fn keys_give_commands() {
    assert_eq!(Some(Command::Quit), command_for_key(Key::Char('q')));
    assert_eq!(Some(Command::SelectNext), command_for_key(Key::Char('j')));
    assert_eq!(Some(Command::SelectNext), command_for_key(Key::Down));
    assert_eq!(Some(Command::SelectPrevious), command_for_key(Key::Char('k')));
    assert_eq!(Some(Command::SelectPrevious), command_for_key(Key::Up));
    assert_eq!(Some(Command::CyclePaletteForward), command_for_key(Key::Char('c')));
    assert_eq!(Some(Command::CyclePaletteForward), command_for_key(Key::Char('C')));
    assert_eq!(Some(Command::DrillDown), command_for_key(Key::Enter));
    assert_eq!(Some(Command::Back), command_for_key(Key::Esc));
}

#[test]
fn other_keys_give_no_command() {
    assert_eq!(None, command_for_key(Key::Other));
    assert_eq!(None, command_for_key(Key::Char('Q')));
    assert_eq!(None, command_for_key(Key::Char('J')));
    assert_eq!(None, command_for_key(Key::Char('x')));
    assert_eq!(None, command_for_key(Key::Char(' ')));
}

#[test]
fn kinds_form_a_chain() {
    assert_eq!(Some(ResourceKind::Pod), ResourceKind::ReplicaSet.child());
    assert_eq!(Some(ResourceKind::Container), ResourceKind::Pod.child());
    assert_eq!(None, ResourceKind::Container.child());
}
