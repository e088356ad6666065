use solana_aggregator::query::{
    end_date_query, receiver_query, sender_query, signature_query, start_date_query, transactions,
    Filter,
};

fn text(s: &str) -> Option<String> {
    Some(s.to_string())
}

#[test]
fn empty_filter_selects_every_row() {
    let (statement, values) = transactions(&Filter::none());
    assert_eq!(statement, "SELECT * FROM transactions");
    assert!(values.is_empty());
}

#[test]
fn sender_filter_alone() {
    let mut filter = Filter::none();
    filter.sender = text("X");
    let (statement, values) = transactions(&filter);
    assert_eq!(statement, "SELECT * FROM transactions WHERE sender=?");
    assert_eq!(values, vec!["X".to_string()]);
}

#[test]
fn all_filters_in_fixed_order() {
    let filter = Filter {
        start_date: text("2024-07-28 00:00:00"),
        end_date: text("2024-07-28 23:59:59"),
        signature: text("sig"),
        sender: text("snd"),
        receiver: text("rcv"),
    };
    let (statement, values) = transactions(&filter);
    assert_eq!(
        statement,
        "SELECT * FROM transactions WHERE timestamp>=? AND timestamp<=? AND signature=? AND sender=? AND receiver=?"
    );
    assert_eq!(values, vec!["2024-07-28 00:00:00", "2024-07-28 23:59:59", "sig", "snd", "rcv"]);
}

#[test]
fn date_bounds_are_bound_as_text() {
    let mut filter = Filter::none();
    filter.start_date = text("2024-07-28 21:11:50");
    filter.end_date = text("2024-07-29 00:00:00");
    let (statement, values) = transactions(&filter);
    assert_eq!(statement, "SELECT * FROM transactions WHERE timestamp>=? AND timestamp<=?");
    assert_eq!(values, vec!["2024-07-28 21:11:50", "2024-07-29 00:00:00"]);
}

#[test]
fn filter_values_stay_out_of_the_statement_text() {
    let mut filter = Filter::none();
    filter.sender = text("x\" OR \"1\"=\"1");
    let (statement, values) = transactions(&filter);
    assert_eq!(statement, "SELECT * FROM transactions WHERE sender=?");
    assert_eq!(values, vec!["x\" OR \"1\"=\"1"]);
    filter.sender = text("X");
    assert_eq!(transactions(&filter).0, statement);
}

#[test]
fn statement_depends_only_on_which_filters_are_set() {
    let a = Filter {
        start_date: None,
        end_date: text("2024"),
        signature: None,
        sender: None,
        receiver: text("\" OR 1=1 --"),
    };
    let b = Filter {
        start_date: None,
        end_date: text(""),
        signature: None,
        sender: None,
        receiver: text("r"),
    };
    assert_eq!(transactions(&a).0, transactions(&b).0);
    assert_eq!(transactions(&a).0, "SELECT * FROM transactions WHERE timestamp<=? AND receiver=?");
    assert_eq!(transactions(&a).1, vec!["2024", "\" OR 1=1 --"]);
    assert_eq!(transactions(&b).1, vec!["", "r"]);
}

#[test]
fn first_condition_opens_with_where() {
    let mut flag = false;
    let mut query = "Q".to_string();
    sender_query(&mut flag, &mut query, "a");
    assert!(flag);
    assert_eq!(query, "Q WHERE sender=\"a\"");
}

#[test]
fn later_conditions_join_with_and() {
    let mut flag = true;
    let mut query = "Q".to_string();
    receiver_query(&mut flag, &mut query, "b");
    assert!(flag);
    assert_eq!(query, "Q AND receiver=\"b\"");
    signature_query(&mut flag, &mut query, "c");
    assert_eq!(query, "Q AND receiver=\"b\" AND signature=\"c\"");
}

#[test]
fn date_bounds_are_unquoted() {
    let mut flag = false;
    let mut query = String::new();
    start_date_query(&mut flag, &mut query, "2024-01-01");
    assert!(flag);
    assert_eq!(query, " WHERE timestamp>=2024-01-01");
    end_date_query(&mut flag, &mut query, "2024-12-31");
    assert_eq!(query, " WHERE timestamp>=2024-01-01 AND timestamp<=2024-12-31");
}

#[test]
fn each_equality_condition_names_its_column() {
    let mut flag = false;
    let mut query = String::new();
    signature_query(&mut flag, &mut query, "");
    assert_eq!(query, " WHERE signature=\"\"");
    let mut flag = false;
    let mut query = String::new();
    receiver_query(&mut flag, &mut query, "r");
    assert_eq!(query, " WHERE receiver=\"r\"");
}
