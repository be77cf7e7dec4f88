use totoro::stats::{format_summary, push_entries, Figure, ListStats};

const HEADING: &str = "<strong>Mailchimp Stats (Rust)</strong><ul>";

fn none() -> ListStats {
    ListStats {
        member_count: None,
        member_count_since_send: None,
        unsubscribe_count_since_send: None,
        avg_sub_rate: None,
        avg_unsub_rate: None,
        click_rate: None,
    }
}

fn count_items(html: &str) -> usize {
    html.matches("<li>").count()
}

#[test]
fn all_six_figures_in_fixed_order() {
    let stats = ListStats {
        member_count: Some(1235),
        member_count_since_send: Some(40),
        unsubscribe_count_since_send: Some(3),
        avg_sub_rate: Some(57),
        avg_unsub_rate: Some(8),
        click_rate: Some(12),
    };
    let summary = format_summary(&stats);
    assert_eq!(
        summary,
        "<strong>Mailchimp Stats (Rust)</strong><ul>\
         <li><strong>Active subscribers:</strong> 1235</li>\
         <li><strong>Subscribes since last send:</strong> 40</li>\
         <li><strong>Unsubscribes since last send:</strong> 3</li>\
         <li><strong>Subscribe rate:</strong> 57/m</li>\
         <li><strong>Unsubscribe rate:</strong> 8/m</li>\
         <li><strong>Click rate:</strong> 12%</li>"
    );
    assert_eq!(count_items(&summary), 6);
}

#[test]
fn readings_rounded_to_whole_numbers() {
    let stats = ListStats {
        member_count: Some(1234.7_f64.round() as u128),
        click_rate: Some(12.3_f64.round() as u128),
        ..none()
    };
    let summary = format_summary(&stats);
    assert!(summary.contains("<li><strong>Active subscribers:</strong> 1235</li>"));
    assert!(summary.contains("<li><strong>Click rate:</strong> 12%</li>"));
    assert_eq!(count_items(&summary), 2);
}

#[test]
fn only_click_rate() {
    let stats = ListStats { click_rate: Some(12), ..none() };
    let summary = format_summary(&stats);
    assert_eq!(
        summary,
        format!("{}<li><strong>Click rate:</strong> 12%</li>", HEADING)
    );
    assert_eq!(count_items(&summary), 1);
}

#[test]
fn each_figure_alone() {
    let cases = [
        (ListStats { member_count: Some(5), ..none() }, "<li><strong>Active subscribers:</strong> 5</li>"),
        (
            ListStats { member_count_since_send: Some(5), ..none() },
            "<li><strong>Subscribes since last send:</strong> 5</li>",
        ),
        (
            ListStats { unsubscribe_count_since_send: Some(5), ..none() },
            "<li><strong>Unsubscribes since last send:</strong> 5</li>",
        ),
        (ListStats { avg_sub_rate: Some(5), ..none() }, "<li><strong>Subscribe rate:</strong> 5/m</li>"),
        (ListStats { avg_unsub_rate: Some(5), ..none() }, "<li><strong>Unsubscribe rate:</strong> 5/m</li>"),
        (ListStats { click_rate: Some(5), ..none() }, "<li><strong>Click rate:</strong> 5%</li>"),
    ];
    for (stats, item) in cases {
        assert_eq!(format_summary(&stats), format!("{}{}", HEADING, item));
    }
}

#[test]
fn no_figure_gives_bare_heading() {
    let summary = format_summary(&none());
    assert_eq!(summary, HEADING);
    assert_eq!(count_items(&summary), 0);
}

#[test]
fn absent_figures_leave_no_trace() {
    let stats = ListStats {
        member_count: Some(10),
        avg_unsub_rate: Some(2),
        ..none()
    };
    let summary = format_summary(&stats);
    assert_eq!(
        summary,
        format!(
            "{}<li><strong>Active subscribers:</strong> 10</li><li><strong>Unsubscribe rate:</strong> 2/m</li>",
            HEADING
        )
    );
    assert!(!summary.contains("Click rate"));
    assert!(!summary.contains("Subscribe rate"));
    assert!(!summary.contains("since last send"));
}

#[test]
fn zero_is_shown_not_omitted() {
    let stats = ListStats { unsubscribe_count_since_send: Some(0), click_rate: Some(0), ..none() };
    assert_eq!(
        format_summary(&stats),
        format!(
            "{}<li><strong>Unsubscribes since last send:</strong> 0</li><li><strong>Click rate:</strong> 0%</li>",
            HEADING
        )
    );
}

#[test]
fn large_readings_are_written_in_full() {
    let stats = ListStats { member_count: Some(u128::MAX), ..none() };
    assert_eq!(
        format_summary(&stats),
        format!(
            "{}<li><strong>Active subscribers:</strong> 340282366920938463463374607431768211455</li>",
            HEADING
        )
    );
}

#[test]
fn push_entries_keeps_what_was_there() {
    let mut out = String::from("<ul>");
    push_entries(&mut out, &ListStats { avg_sub_rate: Some(3), ..none() });
    assert_eq!(out, "<ul><li><strong>Subscribe rate:</strong> 3/m</li>");
}

#[test]
fn labels_and_suffixes() {
    assert_eq!(Figure::ActiveSubscribers.label(), "Active subscribers");
    assert_eq!(Figure::SubscribesSinceSend.label(), "Subscribes since last send");
    assert_eq!(Figure::UnsubscribesSinceSend.label(), "Unsubscribes since last send");
    assert_eq!(Figure::SubscribeRate.label(), "Subscribe rate");
    assert_eq!(Figure::UnsubscribeRate.label(), "Unsubscribe rate");
    assert_eq!(Figure::ClickRate.label(), "Click rate");
    assert_eq!(Figure::ActiveSubscribers.suffix(), "");
    assert_eq!(Figure::SubscribesSinceSend.suffix(), "");
    assert_eq!(Figure::UnsubscribesSinceSend.suffix(), "");
    assert_eq!(Figure::SubscribeRate.suffix(), "/m");
    assert_eq!(Figure::UnsubscribeRate.suffix(), "/m");
    assert_eq!(Figure::ClickRate.suffix(), "%");
}
