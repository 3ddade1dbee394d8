use kubetui::app::{compute_widths, ColumnWidths};
use kubetui::container_app;
use kubetui::data::{Container, Pod, Rows, Rs};
use kubetui::pod_app;
use kubetui::rs_app;
use kubetui::width::{cell_width, widest};

fn rs(name: &str, description: &str, age: &str, pods: &str, containers: &str) -> Rs {
    Rs {
        name: name.to_string(),
        description: description.to_string(),
        age: age.to_string(),
        pods: pods.to_string(),
        containers: containers.to_string(),
    }
}

#[test]
fn test_constraint_len_calculator() {
    let test_data = vec![
        rs_app::Data {
            name: "myreplica-123456".to_string(),
            description: "Deployment".to_string(),
            age: "300d".to_string(),
            pods: "10/10".to_string(),
            containers: "19/30".to_string(),
        },
        rs_app::Data {
            name: "myreplica-923450".to_string(),
            description: "Deployment".to_string(),
            age: "10d".to_string(),
            pods: "1/1".to_string(),
            containers: "2/2".to_string(),
        },
    ];
    let (
        longest_replicaset_len,
        longest_description_len,
        longest_age_len,
        longest_pods_len,
        longest_containers_len,
    ) = rs_app::constraint_len_calculator(&test_data);

    assert_eq!(16, longest_replicaset_len);
    assert_eq!(10, longest_description_len);
    assert_eq!(4, longest_age_len);
    assert_eq!(5, longest_pods_len);
    assert_eq!(5, longest_containers_len);
}

#[test]
fn app_test_constraint_len_calculator() {
    let test_data = vec![
        rs_app::Data {
            name: "myreplica-123456".to_string(),
            description: "Deployment".to_string(),
            age: "300d".to_string(),
            pods: "10/10".to_string(),
            containers: "19/30".to_string(),
        },
        rs_app::Data {
            name: "myreplica-923450".to_string(),
            description: "Deployment".to_string(),
            age: "10d".to_string(),
            pods: "1/1".to_string(),
            containers: "2/2".to_string(),
        },
    ];
    let (
        longest_replicaset_len,
        longest_description_len,
        longest_age_len,
        longest_pods_len,
        longest_containers_len,
    ) = rs_app::constraint_len_calculator(&test_data);

    assert_eq!(16, longest_replicaset_len);
    assert_eq!(10, longest_description_len);
    assert_eq!(4, longest_age_len);
    assert_eq!(5, longest_pods_len);
    assert_eq!(5, longest_containers_len);
}

#[test]
fn container_app_test_constraint_len_calculator() {
    let test_data = vec![
        container_app::Data {
            name: "myreplica-123456-123456".to_string(),
            description: "Deployment".to_string(),
        },
        container_app::Data {
            name: "myreplica-923450-987654".to_string(),
            description: "Deployment".to_string(),
        },
    ];
    let (longest_container_len, longest_description_len) =
        container_app::constraint_len_calculator(&test_data);

    assert_eq!(23, longest_container_len);
    assert_eq!(10, longest_description_len);
}

#[test]
fn pod_app_test_constraint_len_calculator() {
    let test_data = vec![
        pod_app::Data {
            name: "myreplica-123456-123456".to_string(),
            description: "Deployment".to_string(),
            age: "150d".to_string(),
            containers: "2/2".to_string(),
        },
        pod_app::Data {
            name: "myreplica-923450-987654".to_string(),
            description: "Deployment".to_string(),
            age: "10d".to_string(),
            containers: "2/2".to_string(),
        },
    ];
    let (longest_podname_len, longest_description_len, longest_age_len, longest_containers_len) =
        pod_app::constraint_len_calculator(&test_data);

    assert_eq!(23, longest_podname_len);
    assert_eq!(10, longest_description_len);
    assert_eq!(4, longest_age_len);
    assert_eq!(3, longest_containers_len);
}

#[test]
fn tui_container_app_test_constraint_len_calculator() {
    let test_data = vec![
        Container {
            name: "replica-123456-123456".to_string(),
            description: "Deployment".to_string(),
        },
        Container {
            name: "replica-923450-987654".to_string(),
            description: "Deployment".to_string(),
        },
    ];
    let (longest_container_len, longest_description_len) =
        container_app::constraint_len_calculator(&test_data);

    assert_eq!(21, longest_container_len);
    assert_eq!(10, longest_description_len);
}

#[test]
fn tui_pod_app_test_constraint_len_calculator() {
    let test_data = vec![
        Pod {
            name: "replica-123456-123456".to_string(),
            description: "Deployment".to_string(),
            age: "150d".to_string(),
            containers: "2/2".to_string(),
        },
        Pod {
            name: "replica-923450-987654".to_string(),
            description: "Deployment".to_string(),
            age: "10d".to_string(),
            containers: "2/2".to_string(),
        },
    ];
    let (longest_pod_name_len, longest_description_len, longest_age_len, longest_containers_len) =
        pod_app::constraint_len_calculator(&test_data);

    assert_eq!(21, longest_pod_name_len);
    assert_eq!(10, longest_description_len);
    assert_eq!(4, longest_age_len);
    assert_eq!(3, longest_containers_len);
}

#[test]
fn tui_rs_app_test_constraint_len_calculator() {
    let test_data = vec![
        Rs {
            name: "replica-123456".to_string(),
            description: "Deployment".to_string(),
            age: "300d".to_string(),
            pods: "10/10".to_string(),
            containers: "19/30".to_string(),
        },
        Rs {
            name: "replica-923450".to_string(),
            description: "Deployment".to_string(),
            age: "10d".to_string(),
            pods: "1/1".to_string(),
            containers: "2/2".to_string(),
        },
    ];
    let (
        longest_replicaset_len,
        longest_description_len,
        longest_age_len,
        longest_pods_len,
        longest_containers_len,
    ) = rs_app::constraint_len_calculator(&test_data);

    assert_eq!(14, longest_replicaset_len);
    assert_eq!(10, longest_description_len);
    assert_eq!(4, longest_age_len);
    assert_eq!(5, longest_pods_len);
    assert_eq!(5, longest_containers_len);
}

#[test]
fn widths_of_no_rows_are_zero() {
    let none: Vec<Rs> = Vec::new();
    assert_eq!((0, 0, 0, 0, 0), rs_app::constraint_len_calculator(&none));
    let none: Vec<Pod> = Vec::new();
    assert_eq!((0, 0, 0, 0), pod_app::constraint_len_calculator(&none));
    let none: Vec<Container> = Vec::new();
    assert_eq!((0, 0), container_app::constraint_len_calculator(&none));
}

#[test]
fn widest_is_the_maximum() {
    assert_eq!(0, widest(&[]));
    assert_eq!(7, widest(&[7]));
    assert_eq!(7, widest(&[3, 7, 5]));
    assert_eq!(9, widest(&[9, 9, 1]));
    assert_eq!(usize::MAX, widest(&[1, usize::MAX, 2]));
}

#[test]
fn cell_width_of_one_line_is_its_display_width() {
    assert_eq!(0, cell_width(""));
    assert_eq!(10, cell_width("Deployment"));
    assert_eq!(16, cell_width("myreplica-123456"));
}

#[test]
fn cell_width_counts_columns_not_bytes_or_characters() {
    // Five full-width letters: fifteen bytes, five characters, ten columns.
    assert_eq!(10, cell_width("\u{ff28}\u{ff45}\u{ff4c}\u{ff4c}\u{ff4f}"));
    // A letter and a combining accent: two characters, one column.
    assert_eq!(1, cell_width("e\u{301}"));
    assert_eq!(4, cell_width("caf\u{e9}"));
}

#[test]
fn cell_width_is_that_of_the_widest_line() {
    assert_eq!(6, cell_width("ab\nabcdef\nabc"));
    assert_eq!(3, cell_width("abc\n"));
    assert_eq!(3, cell_width("\n\nabc"));
    assert_eq!(0, cell_width("\n"));
    assert_eq!(0, cell_width("\n\n\n"));
}

#[test]
fn cell_width_leaves_out_the_carriage_return_of_a_line_end() {
    assert_eq!(3, cell_width("abc\r\nab"));
    assert_eq!(4, cell_width("ab\r\nabcd\r\n"));
    assert_eq!(0, cell_width("\r\n"));
}

#[test]
fn cell_width_keeps_a_carriage_return_that_ends_no_line() {
    // A carriage return takes one column unless a line feed follows it.
    assert_eq!(4, cell_width("abc\r"));
    assert_eq!(3, cell_width("a\rb\nc"));
    assert_eq!(3, cell_width("ab\r\r\n"));
    assert_eq!(4, cell_width("a\nabc\r"));
    assert_eq!(1, cell_width("\r"));
}

#[test]
fn each_column_is_measured_line_by_line() {
    let rows = vec![
        rs("short\nmuch longer", "one\ntwo\nthree", "1d\n22d", "1/1", "2/2\n10/10"),
        rs("mid-length", "four", "333d", "10/10\n1", "3/3"),
    ];
    assert_eq!((11, 5, 4, 5, 5), rs_app::constraint_len_calculator(&rows));
}

#[test]
fn column_widths_go_by_kind() {
    let rows = Rows::ReplicaSet(vec![rs("abc", "de", "f", "", "ghij")]);
    match compute_widths(&rows) {
        ColumnWidths::ReplicaSet(lens) => assert_eq!((3, 2, 1, 0, 4), lens),
        _ => panic!("widths of another kind"),
    }
    let rows = Rows::Pod(vec![Pod {
        name: "pod-1".to_string(),
        description: "Deployment Pod".to_string(),
        age: "200d".to_string(),
        containers: "2/2".to_string(),
    }]);
    match compute_widths(&rows) {
        ColumnWidths::Pod(lens) => assert_eq!((5, 14, 4, 3), lens),
        _ => panic!("widths of another kind"),
    }
    let rows = Rows::Container(Vec::new());
    match compute_widths(&rows) {
        ColumnWidths::Container(lens) => assert_eq!((0, 0), lens),
        _ => panic!("widths of another kind"),
    }
}
