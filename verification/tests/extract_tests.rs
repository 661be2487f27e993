use skater_scrape::errors::ScrapeError;
use skater_scrape::extract::extract_records;

fn data_row(href: &str, label: &str, year: &str, region: &str, day: &str, month: &str) -> String {
    format!(
        "<tr class=\"row-1 odd\">\
         <td class=\"column-1\"><a href=\"{href}\">{label}</a></td>\
         <td class=\"column-2\">{year}</td>\
         <td class=\"column-5\">{region}</td>\
         <td class=\"column-7\">{day}</td>\
         <td class=\"column-8\">{month}</td>\
         </tr>"
    )
}

fn page(rows: &str) -> String {
    format!(
        "<html><body><table id=\"tablepress-25058\"><tbody>{rows}</tbody></table></body></html>"
    )
}

#[test]
fn extracts_records_from_data_rows() {
    let rows = format!(
        "<tr class=\"group-head\"><td class=\"column-1\">2010</td></tr>{}{}",
        data_row("/skaters/rus/12345", "12345 | Ivan Ivanov", "1998", "Moscow", "15", "03"),
        data_row("/skaters/rus/67890", "67890 | Anna Petrova", "1999", "Kazan", "07", "11"),
    );
    let records = extract_records(&page(&rows)).unwrap();
    assert_eq!(records.len(), 2);
    assert_eq!(records[0].profile_url, "/skaters/rus/12345");
    assert_eq!(records[0].full_name, "Ivan Ivanov");
    assert_eq!(records[0].region, "Moscow");
    assert_eq!(records[0].birth_date, "15 03 1998");
    assert_eq!(records[1].profile_url, "/skaters/rus/67890");
    assert_eq!(records[1].full_name, "Anna Petrova");
    assert_eq!(records[1].region, "Kazan");
    assert_eq!(records[1].birth_date, "07 11 1999");
}

#[test]
fn re_extraction_yields_identical_sequence() {
    let markup = page(&format!(
        "{}{}",
        data_row("/skaters/rus/1", "1 | A B", "2001", "Perm", "01", "02"),
        data_row("/skaters/rus/2", "2 | C D", "2002", "Omsk", "03", "04"),
    ));
    let first = extract_records(&markup).unwrap();
    let second = extract_records(&markup).unwrap();
    assert_eq!(first, second);
}

#[test]
fn group_header_rows_yield_no_record_and_no_error() {
    let markup = page(
        "<tr class=\"group-head\"><td class=\"column-1\">2010</td></tr>\
         <tr class=\"group-head\"><td class=\"column-1\">2011</td></tr>",
    );
    let records = extract_records(&markup).unwrap();
    assert!(records.is_empty());
}

#[test]
fn row_without_class_yields_no_record() {
    let markup = page("<tr><td class=\"column-1\">stray</td></tr>");
    let records = extract_records(&markup).unwrap();
    assert!(records.is_empty());
}

#[test]
fn missing_name_anchor_is_malformed() {
    let markup = page(
        "<tr class=\"row-3 even\">\
         <td class=\"column-1\">no anchor here</td>\
         <td class=\"column-2\">1998</td>\
         <td class=\"column-5\">Moscow</td>\
         <td class=\"column-7\">15</td>\
         <td class=\"column-8\">03</td>\
         </tr>",
    );
    assert_eq!(extract_records(&markup), Err(ScrapeError::MalformedRow));
}

#[test]
fn label_without_pipe_is_malformed() {
    let markup = page(&data_row("/skaters/rus/5", "Ivan Ivanov", "1998", "Moscow", "15", "03"));
    assert_eq!(extract_records(&markup), Err(ScrapeError::MalformedRow));
}

#[test]
fn malformed_row_aborts_before_later_rows_matter() {
    let rows = format!(
        "<tr class=\"row-1\"><td class=\"column-1\">broken</td></tr>{}",
        data_row("/skaters/rus/9", "9 | E F", "2003", "Tula", "05", "06"),
    );
    assert_eq!(extract_records(&page(&rows)), Err(ScrapeError::MalformedRow));
}

#[test]
fn empty_page_has_no_records() {
    let records = extract_records("<html><body></body></html>").unwrap();
    assert!(records.is_empty());
}
