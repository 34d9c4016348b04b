use vidreprocess::catalog::{
    filters_from_rows, modifiers_from_rows, parse_filters, parse_modifiers, seed_plan,
    DEFAULT_FILTERS, DEFAULT_MODIFIERS, FILTERS_FILE, MODIFIERS_FILE,
};
use vidreprocess::failure::Failure;

fn row(fields: &[&str]) -> Vec<String> {
    fields.iter().map(|s| s.to_string()).collect()
}

#[test]
fn default_filters_load() {
    let filters = parse_filters(DEFAULT_FILTERS).unwrap();
    assert_eq!(filters.len(), 17);
    assert_eq!(filters[0].short_name, "quart");
    assert_eq!(filters[0].long_name, "quarter size");
    assert_eq!(filters[0].priority, 10);
    assert_eq!(filters[0].code, "scale=iw/4:-1");
    assert_eq!(filters[4].short_name, "denoise");
    assert_eq!(filters[4].priority, -1);
    assert_eq!(filters[10].code, "deshake,crop=in_w-32:in_h-32:16:16");
    assert_eq!(filters[15].short_name, "w3fdif");
    assert_eq!(filters[15].priority, -10);
    assert_eq!(filters[16].code, "smartblur=lr=2.00:ls=-0.90:lt=-5.0:cr=0.5:cs=1.0:ct=1.5");
}

#[test]
fn default_modifiers_load() {
    let modifiers = parse_modifiers(DEFAULT_MODIFIERS).unwrap();
    assert_eq!(modifiers.len(), 3);
    assert_eq!(modifiers[0].short_name, "ss");
    assert_eq!(modifiers[0].long_name, "start (secs)");
    assert_eq!(modifiers[0].code, "-ss #1");
    assert_eq!(modifiers[1].code, "-t #1");
    assert_eq!(modifiers[2].code, "vf:crop=in_w-2*#1:in_h-2*#1:#1:#1");
}

#[test]
fn header_row_is_not_an_entry() {
    assert_eq!(parse_filters("short_name\tlong_name\tpriority\tcode\n").unwrap().len(), 0);
    assert_eq!(parse_filters("").unwrap().len(), 0);
    let one = parse_filters("a\tb\tc\td\nhalf\thalve\t10\tscale=iw/2:-1\n").unwrap();
    assert_eq!(one.len(), 1);
    assert_eq!(one[0].short_name, "half");
}

#[test]
fn entries_are_read_by_position() {
    let filters = parse_filters("code\tpriority\tlong_name\tshort_name\nn\tl\t3\tc\n").unwrap();
    assert_eq!(filters[0].short_name, "n");
    assert_eq!(filters[0].long_name, "l");
    assert_eq!(filters[0].priority, 3);
    assert_eq!(filters[0].code, "c");
}

#[test]
fn priority_that_is_no_integer_is_a_parse_failure() {
    let result = parse_filters("short_name\tlong_name\tpriority\tcode\nhalf\thalve\thigh\tscale\n");
    match result {
        Err(Failure::Parse(text)) => assert_eq!(text, "malformed filter row: half\thalve\thigh\tscale"),
        other => panic!("unexpected: {:?}", other),
    }
    assert!(matches!(
        parse_filters("a\tb\tc\td\nhalf\thalve\t128\tscale\n"),
        Err(Failure::Parse(_))
    ));
}

#[test]
fn wrong_column_count_is_a_parse_failure() {
    assert!(matches!(
        parse_filters("short_name\tlong_name\tpriority\tcode\nhalf\thalve\t10\n"),
        Err(Failure::Parse(_))
    ));
    assert!(matches!(
        parse_filters("short_name\tlong_name\tpriority\nhalf\thalve\t10\n"),
        Err(Failure::Parse(_))
    ));
    assert!(matches!(
        parse_modifiers("short_name\tlong_name\tcode\tmore\nss\tstart\t-ss #1\tx\n"),
        Err(Failure::Parse(_))
    ));
    match parse_modifiers("short_name\tlong_name\nss\tstart\n") {
        Err(Failure::Parse(text)) => assert_eq!(text, "malformed modifier row: ss\tstart"),
        other => panic!("unexpected: {:?}", other),
    }
}

#[test]
fn first_malformed_row_is_reported() {
    let rows = vec![
        row(&["a", "A", "1", "x"]),
        row(&["b", "B", "one", "y"]),
        row(&["c", "C", "two", "z"]),
    ];
    match filters_from_rows(&rows) {
        Err(Failure::Parse(text)) => assert_eq!(text, "malformed filter row: b\tB\tone\ty"),
        other => panic!("unexpected: {:?}", other),
    }
    let rows = vec![row(&["a", "A", "x"]), row(&["b"]), row(&[])];
    match modifiers_from_rows(&rows) {
        Err(Failure::Parse(text)) => assert_eq!(text, "malformed modifier row: b"),
        other => panic!("unexpected: {:?}", other),
    }
}

#[test]
fn rows_become_entries_in_order() {
    let rows = vec![row(&["a", "A", "-5", "x"]), row(&["b", "B", "+7", "y"])];
    let filters = filters_from_rows(&rows).unwrap();
    assert_eq!(filters.len(), 2);
    assert_eq!(filters[0].priority, -5);
    assert_eq!(filters[1].priority, 7);
    assert_eq!(filters[1].short_name, "b");
    let modifiers = modifiers_from_rows(&vec![row(&["ss", "start", "-ss #1"])]).unwrap();
    assert_eq!(modifiers[0].code, "-ss #1");
    assert_eq!(filters_from_rows(&Vec::new()).unwrap().len(), 0);
}

#[test]
fn quoted_fields_are_read_by_the_reader() {
    let modifiers =
        parse_modifiers("short_name\tlong_name\tcode\ntitle\t\"a \"\"long\"\" name\"\t-x #1\n").unwrap();
    assert_eq!(modifiers[0].long_name, "a \"long\" name");
}

#[test]
fn seeding_creates_what_is_missing() {
    let plan = seed_plan(false, false, false);
    assert!(plan.create_directory && plan.write_filters && plan.write_modifiers);
    let plan = seed_plan(true, true, false);
    assert!(!plan.create_directory && !plan.write_filters && plan.write_modifiers);
    let plan = seed_plan(true, true, true);
    assert!(!plan.create_directory && !plan.write_filters && !plan.write_modifiers);
    assert_eq!(FILTERS_FILE, "video_filters.tab");
    assert_eq!(MODIFIERS_FILE, "video_commands.tab");
}
