use bcnotif::feed::Location;
use bcnotif::scrape::{
    find_sub, scrape_location, scrape_top, slice_from, slice_to, tag_body, tag_body_find,
    tr_columns, Link, ScrapeError,
};

fn top_page() -> String {
    let mut page = String::from("<html><body><table class=\"btable\" border=\"0\">");
    page.push_str("<tr>header</tr><tr>subheader</tr>");
    page.push_str("<tr><td>120 </td>");
    page.push_str("<td><a href=\"/listen/stid/6\">California</a>");
    page.push_str("<a href=\"/listen/ctid/223\">Some County</a></td>");
    page.push_str("<td><a href=\"/listen/feed/12345\">Feed Name</a>");
    page.push_str("<div class=\"messageBox\">Alert!</div></td></tr>");
    page.push_str("<tr><td>5 </td><td><a href=\"/listen/stid/6\">California</a></td>");
    page.push_str("<td><a href=\"/listen/feed/99\">Tiny Feed</a></td></tr>");
    page.push_str("</table></body></html>");
    page
}

#[test]
fn scrape_top_parses_rows() {
    let feeds = scrape_top(&top_page(), 15).expect("page parses");
    // The 5-listener feed falls under the minimum.
    assert_eq!(feeds.len(), 1);
    let feed = &feeds[0];
    assert_eq!(feed.id, 12345);
    assert_eq!(feed.name, "Feed Name");
    assert_eq!(feed.listeners, 120);
    assert!(matches!(feed.location, Location::UsCalifornia));
    assert_eq!(feed.county, "Some County");
    assert_eq!(feed.alert.as_deref(), Some("Alert!"));
}

#[test]
fn scrape_top_keeps_small_feeds_when_allowed() {
    let feeds = scrape_top(&top_page(), 1).expect("page parses");
    assert_eq!(feeds.len(), 2);
    assert_eq!(feeds[1].id, 99);
    assert_eq!(feeds[1].listeners, 5);
    // Only one location link: the county defaults.
    assert_eq!(feeds[1].county, "Numerous");
    assert_eq!(feeds[1].alert, None);
}

#[test]
fn scrape_top_missing_table() {
    let r = scrape_top("<html><body>nothing here</body></html>", 15);
    assert!(matches!(r, Err(ScrapeError::MissingFeedTable)));
}

#[test]
fn scrape_top_no_feeds() {
    let r = scrape_top("<table class=\"btable\"><tr>h</tr><tr>h2</tr></table>", 15);
    assert!(matches!(r, Err(ScrapeError::NoFeeds)));
}

#[test]
fn scrape_top_unknown_location() {
    let mut page = String::from("<table class=\"btable\"><tr>h</tr><tr>h2</tr>");
    page.push_str("<tr><td>120 </td><td><a href=\"/listen/stid/99999\">Nowhere</a></td>");
    page.push_str("<td><a href=\"/listen/feed/1\">Feed</a></td></tr></table>");
    let r = scrape_top(&page, 15);
    assert!(matches!(r, Err(ScrapeError::UnknownLocationID(99999))));
}

fn location_page() -> String {
    let mut page = String::from("<table class=\"btable\">first</table>");
    page.push_str("<table class=\"btable\" cellpadding=\"0\">");
    page.push_str("<tr>h</tr><tr>h2</tr>");
    page.push_str("<tr><td><a href=\"/x\">County X</a></td>");
    page.push_str("<td><a href=\"/listen/feed/777\">Loc Feed</a>");
    page.push_str("<font class=\"fontRed\">Red Alert</font></td>");
    page.push_str("<td>status</td><td>333<br></td></tr>");
    page.push_str("</table>");
    page
}

#[test]
fn scrape_location_parses_rows() {
    let feeds = scrape_location(&location_page(), 15, Location::CaOntario).expect("page parses");
    assert_eq!(feeds.len(), 1);
    let feed = &feeds[0];
    assert_eq!(feed.id, 777);
    assert_eq!(feed.name, "Loc Feed");
    assert_eq!(feed.listeners, 333);
    assert!(matches!(feed.location, Location::CaOntario));
    assert_eq!(feed.county, "County X");
    assert_eq!(feed.alert.as_deref(), Some("Red Alert"));
}

#[test]
fn scrape_location_needs_two_tables() {
    let r = scrape_location("<table class=\"btable\">only one</table>", 15, Location::CaOntario);
    assert!(matches!(r, Err(ScrapeError::MissingFeedTable)));
}

#[test]
fn scrape_location_respects_minimum() {
    let r = scrape_location(&location_page(), 1000, Location::CaOntario);
    assert!(matches!(r, Err(ScrapeError::NoFeeds)));
}

#[test]
fn find_and_slice_helpers() {
    assert_eq!(find_sub("abcabc", "ca"), Some(2));
    assert_eq!(find_sub("abcabc", "zz"), None);
    assert_eq!(slice_from("key=value", "key="), Some("value"));
    assert_eq!(slice_to("value</td>", "</td>"), Some("value"));
    assert_eq!(tag_body("<td class=\"c\">body</td>", "</td>"), Some("body"));
    assert_eq!(
        tag_body_find("junk<table x=\"1\">content</table>tail", "<table", "</table>"),
        Some("content")
    );
}

#[test]
fn tr_columns_counts_cells() {
    let row = "<td>a</td><td>b</td><td>c</td>";
    let cols = tr_columns(row, 3).expect("three cells");
    assert_eq!(cols, vec!["a", "b", "c"]);
    assert!(tr_columns(row, 4).is_none());
}

#[test]
fn link_parsing() {
    let body = "<a class=\"x\" href=\"/listen/feed/4242\">Name Here</a>";
    assert_eq!(Link::parse_href_id(body), Some(4242));
    let link = Link::parse(body).expect("link parses");
    assert_eq!(link.href_id, 4242);
    assert_eq!(link.value, "Name Here");
    // No digits after the last slash: no link.
    assert_eq!(Link::parse_href_id("<a href=\"/listen/feed/\">x</a>"), None);
    assert!(Link::parse("no link here").is_none());
}
