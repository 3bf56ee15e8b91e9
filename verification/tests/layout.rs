use memscan::app::App;
use memscan::mem_view::{mem_view_fits, mem_view_layout, RowShade, MAX_SHOWN_RESULTS};

fn strings(v: &[&str]) -> Vec<String> {
    v.iter().map(|s| s.to_string()).collect()
}

#[test]
fn rows_fill_the_width() {
    let v = mem_view_layout(40, &String::from("42"), &strings(&["0x1000", "0x2000", "0x1000"]));
    assert_eq!(v.title_padding, 25);
    assert_eq!(v.rows.len(), 3);
    assert_eq!(v.rows[0].address, "0x1000");
    assert_eq!(v.rows[0].value, "42");
    assert_eq!(v.rows[0].padding, 40 - 6 - 2 - 3);
    assert_eq!(v.rows[0].shade, RowShade::Dark);
    assert_eq!(v.rows[1].shade, RowShade::Light);
    // a repeated address takes the shade of its first occurrence
    assert_eq!(v.rows[2].shade, RowShade::Dark);
}

#[test]
fn distinct_results_alternate() {
    let v = mem_view_layout(30, &String::new(), &strings(&["a", "b", "c", "d"]));
    let shades: Vec<RowShade> = v.rows.iter().map(|r| r.shade).collect();
    assert_eq!(shades, vec![RowShade::Dark, RowShade::Light, RowShade::Dark, RowShade::Light]);
}

#[test]
fn lengths_count_bytes() {
    let v = mem_view_layout(20, &String::from("é"), &strings(&["ü"]));
    assert_eq!(v.rows[0].padding, 20 - 2 - 2 - 3);
}

#[test]
fn at_most_two_hundred_results() {
    let results: Vec<String> = (0..250).map(|i| format!("{:x}", i)).collect();
    let v = mem_view_layout(30, &String::from("1"), &results);
    assert_eq!(v.rows.len(), MAX_SHOWN_RESULTS);
    assert_eq!(v.rows[199].address, "c7");
}

#[test]
fn no_results() {
    let v = mem_view_layout(15, &String::from("1"), &Vec::new());
    assert_eq!(v.title_padding, 0);
    assert!(v.rows.is_empty());
}

#[test]
fn fitting() {
    let mut app = App::new();
    assert!(!mem_view_fits(&app, 14));
    assert!(mem_view_fits(&app, 15));
    app.modify_query((2, String::from("42")));
    app.modify_query_results(vec![(String::from("0x10000000000"), String::from("42"))]);
    assert!(!mem_view_fits(&app, 15));
    assert!(!mem_view_fits(&app, 17));
    assert!(mem_view_fits(&app, 18));
}

#[test]
fn showing_sets_the_list_lines() {
    let mut app = App::new();
    let v = app.show_mem_view(40);
    assert!(v.rows.is_empty());
    assert!(app.mem_view_list.list.is_empty());
    app.modify_query((2, String::from("42")));
    app.modify_query_results(vec![
        (String::from("0x1000"), String::from("42")),
        (String::from("0x2000"), String::from("42")),
    ]);
    let v = app.show_mem_view(20);
    assert_eq!(v.rows.len(), 2);
    assert_eq!(app.mem_view_list.list, vec![
        String::from(" 0x1000         42"),
        String::from(" 0x2000         42"),
    ]);
    assert_eq!(app.mem_view_list.state.selected(), Some(0));
}
