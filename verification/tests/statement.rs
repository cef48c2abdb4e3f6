use theatrical_players::{
    check_limits, create_statement_data, html_statement, render_html_statement,
    render_plain_statement, statement, Invoice, Performance, Play, Plays, StatementError,
};

fn performance(play_id: &str, audience: u64) -> Performance {
    Performance { play_id: play_id.to_string(), audience }
}

fn play(name: &str, p_type: &str) -> Play {
    Play { name: name.to_string(), p_type: p_type.to_string() }
}

fn big_co() -> Invoice {
    Invoice {
        customer: "BigCo".to_string(),
        performances: vec![
            performance("hamlet", 55),
            performance("as-like", 35),
            performance("othello", 40),
        ],
    }
}

fn repertoire() -> Plays {
    let mut plays = Plays::new();
    plays.insert("hamlet".to_string(), play("Hamlet", "tragedy"));
    plays.insert("as-like".to_string(), play("As You Like It", "comedy"));
    plays.insert("othello".to_string(), play("Othello", "tragedy"));
    plays
}

fn new_play_types() -> (Invoice, Plays) {
    let invoice = Invoice {
        customer: "BigCoII".to_string(),
        performances: vec![performance("henry-v", 53), performance("as-like", 55)],
    };
    let mut plays = Plays::new();
    plays.insert("henry-v".to_string(), play("Henry V", "history"));
    plays.insert("as-like".to_string(), play("As You Like It", "pastoral"));
    (invoice, plays)
}

#[test]
fn example_plain_statement() {
    let invoice = big_co();
    let plays = repertoire();
    assert!(check_limits(&invoice, &plays));
    let result = statement(&invoice, &plays).unwrap();
    assert_eq!(
        result,
        "Statement for BigCo\n\
         \x20Hamlet: $650.00 (55 seats)\n\
         \x20As You Like It: $580.00 (35 seats)\n\
         \x20Othello: $500.00 (40 seats)\n\
         Amount owed is $1,730.00\n\
         You earned 47 credits\n"
    );
}

#[test]
fn example_html_statement() {
    let invoice = big_co();
    let plays = repertoire();
    assert!(check_limits(&invoice, &plays));
    let result = html_statement(&invoice, &plays).unwrap();
    assert_eq!(
        result,
        "<h1>Statement for BigCo</h1>\n\
         <table>\n\
         <tr><th>play</th><th>seats</th><th>cost</th></tr> <tr><td>Hamlet</td><td>55</td><td>650.00</td></tr>\n\
         \x20<tr><td>As You Like It</td><td>35</td><td>580.00</td></tr>\n\
         \x20<tr><td>Othello</td><td>40</td><td>500.00</td></tr>\n\
         </table>\n\
         <p>Amount owed is <em>1730.00</em></p>\n\
         <p>You earned <em>47</em> credits</p>\n"
    );
}

#[test]
fn statement_with_new_play_types() {
    let (invoice, plays) = new_play_types();
    assert!(check_limits(&invoice, &plays));
    let error = statement(&invoice, &plays).unwrap_err();
    assert_eq!(error, StatementError::UnsupportedGenre("history".to_string()));
    assert_eq!(error.message(), "unknown type:history");
}

#[test]
fn html_statement_with_new_play_types() {
    let (invoice, plays) = new_play_types();
    assert_eq!(
        html_statement(&invoice, &plays),
        Err(StatementError::UnsupportedGenre("history".to_string()))
    );
}

#[test]
fn pastoral_is_reported_when_it_comes_first() {
    let (mut invoice, plays) = new_play_types();
    invoice.performances.reverse();
    assert_eq!(
        statement(&invoice, &plays),
        Err(StatementError::UnsupportedGenre("pastoral".to_string()))
    );
}

#[test]
fn one_bad_performance_leaves_no_statement() {
    let mut invoice = big_co();
    invoice.performances.push(performance("henry-v", 53));
    let mut plays = repertoire();
    plays.insert("henry-v".to_string(), play("Henry V", "history"));
    assert!(check_limits(&invoice, &plays));
    assert_eq!(
        statement(&invoice, &plays),
        Err(StatementError::UnsupportedGenre("history".to_string()))
    );
    assert!(create_statement_data(&invoice, &plays).is_err());
}

#[test]
fn genre_names_are_matched_exactly() {
    let invoice =
        Invoice { customer: "Co".to_string(), performances: vec![performance("hamlet", 10)] };
    for name in ["Tragedy", "tragedy ", "", "comedies"] {
        let mut plays = Plays::new();
        plays.insert("hamlet".to_string(), play("Hamlet", name));
        assert_eq!(
            statement(&invoice, &plays),
            Err(StatementError::UnsupportedGenre(name.to_string()))
        );
    }
}

#[test]
fn unknown_play_is_reported_with_its_identifier() {
    let mut invoice = big_co();
    invoice.performances.insert(1, performance("macbeth", 10));
    let plays = repertoire();
    let error = statement(&invoice, &plays).unwrap_err();
    assert_eq!(error, StatementError::UnknownPlay("macbeth".to_string()));
    assert_eq!(error.message(), "unknown play:macbeth");
}

#[test]
fn first_failure_in_invoice_order_is_reported() {
    let invoice = Invoice {
        customer: "Co".to_string(),
        performances: vec![
            performance("hamlet", 1),
            performance("missing", 2),
            performance("henry-v", 3),
        ],
    };
    let mut plays = repertoire();
    plays.insert("henry-v".to_string(), play("Henry V", "history"));
    assert_eq!(
        create_statement_data(&invoice, &plays).err(),
        Some(StatementError::UnknownPlay("missing".to_string()))
    );
}

#[test]
fn statement_data_holds_the_scenario_figures() {
    let invoice = big_co();
    let plays = repertoire();
    let data = create_statement_data(&invoice, &plays).unwrap();
    assert_eq!(data.customer, "BigCo");
    let amounts: Vec<u64> = data.performances.iter().map(|p| p.amount()).collect();
    assert_eq!(amounts, vec![65000, 58000, 50000]);
    let credits: Vec<u64> = data.performances.iter().map(|p| p.volume_credits()).collect();
    assert_eq!(credits, vec![25, 12, 10]);
    let titles: Vec<&str> = data.performances.iter().map(|p| p.play().name.as_str()).collect();
    assert_eq!(titles, vec!["Hamlet", "As You Like It", "Othello"]);
    let seats: Vec<u64> = data.performances.iter().map(|p| p.audience()).collect();
    assert_eq!(seats, vec![55, 35, 40]);
    assert_eq!(data.total_amount(), 173000);
    assert_eq!(data.total_volume_credits(), 47);
}

#[test]
fn totals_do_not_depend_on_the_order() {
    let plays = repertoire();
    let mut invoice = big_co();
    invoice.performances.reverse();
    let data = create_statement_data(&invoice, &plays).unwrap();
    assert_eq!(data.total_amount(), 173000);
    assert_eq!(data.total_volume_credits(), 47);
    invoice.performances.swap(0, 1);
    let data = create_statement_data(&invoice, &plays).unwrap();
    assert_eq!(data.total_amount(), 173000);
    assert_eq!(data.total_volume_credits(), 47);
}

#[test]
fn lines_keep_the_order_of_the_invoice() {
    let plays = repertoire();
    let mut invoice = big_co();
    invoice.performances.reverse();
    assert_eq!(
        statement(&invoice, &plays).unwrap(),
        "Statement for BigCo\n\
         \x20Othello: $500.00 (40 seats)\n\
         \x20As You Like It: $580.00 (35 seats)\n\
         \x20Hamlet: $650.00 (55 seats)\n\
         Amount owed is $1,730.00\n\
         You earned 47 credits\n"
    );
}

#[test]
fn rendering_twice_gives_the_same_text() {
    let invoice = big_co();
    let plays = repertoire();
    let first = render_plain_statement(create_statement_data(&invoice, &plays).unwrap());
    let second = render_plain_statement(create_statement_data(&invoice, &plays).unwrap());
    assert_eq!(first, second);
    let first = render_html_statement(create_statement_data(&invoice, &plays).unwrap());
    let second = render_html_statement(create_statement_data(&invoice, &plays).unwrap());
    assert_eq!(first, second);
}

#[test]
fn empty_invoice_has_heading_and_closing_only() {
    let invoice = Invoice { customer: "Nobody".to_string(), performances: vec![] };
    let plays = Plays::new();
    assert!(check_limits(&invoice, &plays));
    assert_eq!(
        statement(&invoice, &plays).unwrap(),
        "Statement for Nobody\nAmount owed is $0.00\nYou earned 0 credits\n"
    );
    assert_eq!(
        html_statement(&invoice, &plays).unwrap(),
        "<h1>Statement for Nobody</h1>\n<table>\n\
         <tr><th>play</th><th>seats</th><th>cost</th></tr></table>\n\
         <p>Amount owed is <em>0.00</em></p>\n<p>You earned <em>0</em> credits</p>\n"
    );
}

#[test]
fn amounts_are_formatted_from_cents() {
    let invoice =
        Invoice { customer: "Co".to_string(), performances: vec![performance("as-like", 1)] };
    let plays = repertoire();
    assert_eq!(
        statement(&invoice, &plays).unwrap(),
        "Statement for Co\n As You Like It: $303.00 (1 seats)\nAmount owed is $303.00\nYou earned 0 credits\n"
    );
    let invoice =
        Invoice { customer: "Co".to_string(), performances: vec![performance("hamlet", 2000)] };
    assert_eq!(
        statement(&invoice, &plays).unwrap(),
        "Statement for Co\n Hamlet: $20,100.00 (2000 seats)\nAmount owed is $20,100.00\nYou earned 1970 credits\n"
    );
    assert_eq!(
        html_statement(&invoice, &plays).unwrap(),
        "<h1>Statement for Co</h1>\n<table>\n\
         <tr><th>play</th><th>seats</th><th>cost</th></tr> <tr><td>Hamlet</td><td>2000</td><td>20100.00</td></tr>\n\
         </table>\n<p>Amount owed is <em>20100.00</em></p>\n<p>You earned <em>1970</em> credits</p>\n"
    );
}

#[test]
fn limits_are_checked_for_lines_and_totals() {
    let plays = repertoire();
    let huge =
        Invoice { customer: "Co".to_string(), performances: vec![performance("hamlet", u64::MAX)] };
    assert!(!check_limits(&huge, &plays));

    let largest_tragedy = (u64::MAX - 40000) / 1000 + 30;
    let one = Invoice {
        customer: "Co".to_string(),
        performances: vec![performance("hamlet", largest_tragedy)],
    };
    assert!(check_limits(&one, &plays));
    let data = create_statement_data(&one, &plays).unwrap();
    assert_eq!(data.total_amount(), 40000 + 1000 * (largest_tragedy - 30));
    let beyond = Invoice {
        customer: "Co".to_string(),
        performances: vec![performance("hamlet", largest_tragedy + 1)],
    };
    assert!(!check_limits(&beyond, &plays));

    let two = Invoice {
        customer: "Co".to_string(),
        performances: vec![
            performance("hamlet", largest_tragedy),
            performance("othello", largest_tragedy),
        ],
    };
    assert!(!check_limits(&two, &plays));

    let failing = Invoice {
        customer: "Co".to_string(),
        performances: vec![
            performance("hamlet", largest_tragedy),
            performance("othello", largest_tragedy),
            performance("missing", 1),
        ],
    };
    assert!(check_limits(&failing, &plays));
    assert_eq!(
        statement(&failing, &plays),
        Err(StatementError::UnknownPlay("missing".to_string()))
    );

    let failing_first = Invoice {
        customer: "Co".to_string(),
        performances: vec![performance("missing", 1), performance("hamlet", u64::MAX)],
    };
    assert!(check_limits(&failing_first, &plays));
    assert_eq!(
        statement(&failing_first, &plays),
        Err(StatementError::UnknownPlay("missing".to_string()))
    );

    let failing_last = Invoice {
        customer: "Co".to_string(),
        performances: vec![performance("hamlet", u64::MAX), performance("missing", 1)],
    };
    assert!(!check_limits(&failing_last, &plays));
}
