use docomo_sharecycle::extract::ports_from_captures;
use docomo_sharecycle::scrape::{group_by_subareas, select};
use docomo_sharecycle::{list_bicycles, list_ports, HtmlSource, PortInfo, SubArea};

fn port_block(code: &str, id: &str, name: &str, count: &str) -> String {
    format!(
        "<form method=\"POST\" action=\"x\">\n<input type=\"hidden\" name=\"ParkingID\" value=\"{}\">\n<a class=\"port_list_btn_inner\" href=\"#\">{}.{}<br>Somewhere<br>{}台</a>\n</form>\n",
        code, id, name, count
    )
}

fn port(id: &str, name: &str, count: usize) -> PortInfo {
    PortInfo((id.to_string(), name.to_string(), count))
}

fn subarea(title: &str, ports: &[&str]) -> SubArea {
    SubArea::new(title.to_string(), ports.iter().map(|p| p.to_string()).collect())
}

fn section(title: &str, ports: Vec<PortInfo>) -> HtmlSource {
    HtmlSource { ports, title: title.to_string() }
}

#[test]
fn only_the_listed_ports_that_the_page_has_are_kept() {
    let body = port_block("1", "10414", "Shinagawa", "5");
    let sections = list_ports(&body, &vec![subarea("Ward office", &["10414", "10999"])]);
    assert_eq!(sections, vec![section("Ward office", vec![port("10414", "Shinagawa", 5)])]);
}

#[test]
fn sections_follow_the_order_of_the_sub_areas() {
    let body = format!(
        "{}{}{}",
        port_block("3", "N3", "Third", "3"),
        port_block("1", "N1", "First", "1"),
        port_block("2", "N2", "Second", "2")
    );
    let subareas = vec![subarea("A", &["N1"]), subarea("B", &["N2"]), subarea("C", &["N3"])];
    let sections = list_ports(&body, &subareas);
    assert_eq!(
        sections,
        vec![
            section("A", vec![port("N1", "First", 1)]),
            section("B", vec![port("N2", "Second", 2)]),
            section("C", vec![port("N3", "Third", 3)]),
        ]
    );
}

#[test]
fn ports_follow_the_order_of_the_sub_area_not_of_the_page() {
    let body = format!(
        "{}{}{}",
        port_block("1", "N1", "First", "1"),
        port_block("2", "N2", "Second", "2"),
        port_block("3", "N3", "Third", "3")
    );
    let sections = list_ports(&body, &vec![subarea("Mixed", &["N3", "missing", "N1", "N3"])]);
    assert_eq!(
        sections,
        vec![section(
            "Mixed",
            vec![port("N3", "Third", 3), port("N1", "First", 1), port("N3", "Third", 3)]
        )]
    );
}

#[test]
fn a_sub_area_without_hits_gives_an_empty_section() {
    let body = port_block("1", "N1", "First", "1");
    let subareas = vec![subarea("None", &["X", "Y"]), subarea("Empty", &[])];
    assert_eq!(
        list_ports(&body, &subareas),
        vec![section("None", vec![]), section("Empty", vec![])]
    );
    assert_eq!(list_ports("", &subareas).len(), 2);
}

#[test]
fn no_sub_areas_give_no_sections() {
    let body = port_block("1", "N1", "First", "1");
    assert_eq!(list_ports(&body, &Vec::new()), Vec::new());
}

#[test]
fn a_section_is_selected_from_a_table() {
    let matches = vec![
        vec![Some("w".to_string()), Some("1".to_string()), Some("A".to_string()), Some("a".to_string()), Some("1".to_string())],
        vec![Some("w".to_string()), Some("2".to_string()), Some("B".to_string()), Some("b".to_string()), Some("2".to_string())],
    ];
    let table = ports_from_captures(&matches);
    assert_eq!(
        select(&table, &subarea("T", &["B", "C", "A"])),
        section("T", vec![port("B", "b", 2), port("A", "a", 1)])
    );
    assert_eq!(
        group_by_subareas(&table, &vec![subarea("One", &["A"]), subarea("Two", &["Z"])]),
        vec![section("One", vec![port("A", "a", 1)]), section("Two", vec![])]
    );
}

#[test]
fn a_new_section_is_empty_and_push_appends() {
    let mut source = HtmlSource::new("Title".to_string());
    assert_eq!(source, section("Title", vec![]));
    source.push(port("A", "a", 1));
    source.push(port("B", "b", 2));
    assert_eq!(source, section("Title", vec![port("A", "a", 1), port("B", "b", 2)]));
}

#[test]
fn a_sub_area_keeps_its_title_and_ports() {
    let area = subarea("Title", &["A", "B"]);
    assert_eq!(area.title(), "Title");
    assert_eq!(area.ports(), &vec!["A".to_string(), "B".to_string()]);
}

#[test]
fn the_vehicle_codes_of_a_port_page_are_listed() {
    let body = "<ul><li><a href=\"#1\">TYO1234</a></li><li><a href=\"#2\">short</a></li><li><a\n href=\"#3\">TYO5678</a></li></ul>";
    assert_eq!(
        list_bicycles(body),
        vec![Some("TYO1234".to_string()), Some("TYO5678".to_string())]
    );
    assert_eq!(list_bicycles("<html></html>"), Vec::<Option<String>>::new());
}
