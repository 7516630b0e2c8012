use docomo_sharecycle::extract::{port_from_groups, ports_from_captures};
use docomo_sharecycle::{extract_ports, PortInfo};

fn port_block(code: &str, id: &str, name: &str, count: &str) -> String {
    format!(
        "<form method=\"POST\" action=\"x\">\n<input type=\"hidden\" name=\"ParkingID\" value=\"{}\">\n<a class=\"port_list_btn_inner\" href=\"#\">{}.{}<br>Somewhere<br>{}台</a>\n</form>\n",
        code, id, name, count
    )
}

fn port(id: &str, name: &str, count: usize) -> PortInfo {
    PortInfo((id.to_string(), name.to_string(), count))
}

fn groups(texts: &[Option<&str>]) -> Vec<Option<String>> {
    texts.iter().map(|text| text.map(|t| t.to_string())).collect()
}

#[test]
fn a_page_without_port_blocks_gives_an_empty_table() {
    let table = extract_ports("<html><body><p>no ports here</p></body></html>");
    assert_eq!(table.len(), 0);
    assert!(!table.contains_key("I1-01"));
}

#[test]
fn the_empty_page_gives_an_empty_table() {
    assert_eq!(extract_ports("").len(), 0);
}

#[test]
fn the_count_is_the_value_of_the_digit_run() {
    let html = port_block("10414", "I1-01", "品川区役所 本庁舎前", "5");
    let table = extract_ports(&html);
    assert_eq!(table.len(), 1);
    assert_eq!(table.get("I1-01"), Some(&port("I1-01", "品川区役所 本庁舎前", 5)));
}

#[test]
fn every_block_of_a_page_is_read() {
    let html = format!(
        "<html>{}{}{}</html>",
        port_block("10414", "I1-01", "First", "5"),
        port_block("10415", "I1-02", "Second", "0"),
        port_block("10416", "I1-03", "Third", "123")
    );
    let table = extract_ports(&html);
    assert_eq!(table.len(), 3);
    assert_eq!(table.get("I1-01"), Some(&port("I1-01", "First", 5)));
    assert_eq!(table.get("I1-02"), Some(&port("I1-02", "Second", 0)));
    assert_eq!(table.get("I1-03"), Some(&port("I1-03", "Third", 123)));
    assert_eq!(table.get("10414"), None);
}

#[test]
fn content_between_the_tags_may_span_lines() {
    let html = "<form method=\"POST\"\n action=\"x\">\n\n<input\n name=\"ParkingID\" value=\"10414\"\n>\n<a class=\"port_list_btn_inner\"\n href=\"#\"\n>A1-01.Name\nover two lines<br>line\none<br>7台</a>";
    let table = extract_ports(html);
    assert_eq!(table.len(), 1);
    assert_eq!(table.get("A1-01"), Some(&port("A1-01", "Name\nover two lines", 7)));
}

#[test]
fn a_later_block_replaces_an_earlier_one_with_the_same_identifier() {
    let html = format!(
        "{}{}",
        port_block("1", "A1-01", "Old", "1"),
        port_block("2", "A1-01", "New", "2")
    );
    let table = extract_ports(&html);
    assert_eq!(table.len(), 1);
    assert_eq!(table.get("A1-01"), Some(&port("A1-01", "New", 2)));
}

#[test]
fn a_block_with_an_empty_count_is_dropped() {
    let html = format!(
        "{}{}",
        port_block("1", "A1-01", "NoCount", ""),
        port_block("2", "A1-02", "Counted", "4")
    );
    let table = extract_ports(&html);
    assert_eq!(table.get("A1-01"), None);
    assert_eq!(table.get("A1-02"), Some(&port("A1-02", "Counted", 4)));
    assert_eq!(table.len(), 1);
}

#[test]
fn a_block_whose_count_does_not_fit_is_dropped() {
    let html = format!(
        "{}{}",
        port_block("1", "A1-01", "Huge", "99999999999999999999999999999999999999"),
        port_block("2", "A1-02", "Counted", "4")
    );
    let table = extract_ports(&html);
    assert_eq!(table.get("A1-01"), None);
    assert_eq!(table.len(), 1);
}

#[test]
fn reading_a_page_twice_gives_the_same_table() {
    let html = format!(
        "{}{}",
        port_block("1", "A1-01", "First", "1"),
        port_block("2", "A1-02", "Second", "2")
    );
    let first = extract_ports(&html);
    let second = extract_ports(&html);
    assert_eq!(first.len(), second.len());
    for id in ["A1-01", "A1-02", "A1-03"] {
        assert_eq!(first.get(id), second.get(id));
    }
}

#[test]
fn a_match_with_all_groups_describes_a_port() {
    let found = groups(&[Some("whole"), Some("10414"), Some("I1-01"), Some("Name"), Some("12")]);
    assert_eq!(port_from_groups(&found), Some(port("I1-01", "Name", 12)));
}

#[test]
fn a_match_that_lacks_a_group_describes_no_port() {
    assert_eq!(port_from_groups(&groups(&[Some("w"), None, Some("a"), Some("b"), Some("1")])), None);
    assert_eq!(port_from_groups(&groups(&[Some("w"), Some("c"), None, Some("b"), Some("1")])), None);
    assert_eq!(port_from_groups(&groups(&[Some("w"), Some("c"), Some("a"), None, Some("1")])), None);
    assert_eq!(port_from_groups(&groups(&[Some("w"), Some("c"), Some("a"), Some("b"), None])), None);
    assert_eq!(port_from_groups(&groups(&[Some("w"), Some("c"), Some("a"), Some("b")])), None);
    assert_eq!(port_from_groups(&groups(&[])), None);
}

#[test]
fn a_match_whose_count_is_no_digit_run_describes_no_port() {
    assert_eq!(port_from_groups(&groups(&[Some("w"), Some("c"), Some("a"), Some("b"), Some("1x")])), None);
    assert_eq!(port_from_groups(&groups(&[Some("w"), Some("c"), Some("a"), Some("b"), Some("+1")])), None);
    assert_eq!(port_from_groups(&groups(&[Some("w"), Some("c"), Some("a"), Some("b"), Some("")])), None);
    assert_eq!(port_from_groups(&groups(&[Some("w"), Some("c"), Some("a"), Some("b"), Some("５")])), None);
}

#[test]
fn matches_are_filed_in_order_and_the_last_wins() {
    let matches = vec![
        groups(&[Some("w"), Some("1"), Some("A"), Some("first"), Some("1")]),
        groups(&[Some("w"), Some("2"), Some("B"), Some("other"), Some("2")]),
        groups(&[Some("w"), None, Some("C"), Some("dropped"), Some("3")]),
        groups(&[Some("w"), Some("3"), Some("A"), Some("second"), Some("4")]),
    ];
    let table = ports_from_captures(&matches);
    assert_eq!(table.len(), 2);
    assert_eq!(table.get("A"), Some(&port("A", "second", 4)));
    assert_eq!(table.get("B"), Some(&port("B", "other", 2)));
    assert_eq!(table.get("C"), None);
}

#[test]
fn no_matches_give_an_empty_table() {
    let table = ports_from_captures(&Vec::new());
    assert_eq!(table.len(), 0);
}
