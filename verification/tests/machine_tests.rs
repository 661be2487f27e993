use skater_scrape::errors::ScrapeError;
use skater_scrape::orchestrator::{Action, Event, Orchestrator, Phase};
use skater_scrape::pagination::{advance_script, check_pagination, PageStep};
use skater_scrape::record::{export_rows, Record, RecordStore};

fn one_row_page(href: &str, label: &str) -> String {
    format!(
        "<html><body><table id=\"tablepress-25058\"><tbody>\
         <tr class=\"row-1\">\
         <td class=\"column-1\"><a href=\"{href}\">{label}</a></td>\
         <td class=\"column-2\">1998</td>\
         <td class=\"column-5\">Moscow</td>\
         <td class=\"column-7\">15</td>\
         <td class=\"column-8\">03</td>\
         </tr></tbody></table></body></html>"
    )
}

#[test]
fn pagination_decision_reads_disabled_marker() {
    assert_eq!(
        check_pagination("paginate_button next disabled"),
        PageStep::Exhausted
    );
    assert_eq!(check_pagination("paginate_button next"), PageStep::HasNext);
}

#[test]
fn advance_script_targets_the_table_control() {
    assert_eq!(
        advance_script(),
        "document.getElementById(\"tablepress-25058_next\").click()"
    );
}

#[test]
fn orchestrator_scrapes_every_page_until_exhausted() {
    let mut orch = Orchestrator::new(Vec::new());
    let a = orch.step(Event::Started);
    assert!(matches!(a, Action::ReadPage));

    let a = orch.step(Event::Page(one_row_page("/skaters/rus/1", "1 | A B")));
    assert!(matches!(a, Action::ReadPaginationClass));

    let a = orch.step(Event::PaginationClass(Some("paginate_button next".to_string())));
    match a {
        Action::Advance(script) => assert_eq!(script, advance_script()),
        _ => panic!("expected an advance action"),
    }

    let a = orch.step(Event::AdvanceDone);
    assert!(matches!(a, Action::ReadPage));

    let a = orch.step(Event::Page(one_row_page("/skaters/rus/2", "2 | C D")));
    assert!(matches!(a, Action::ReadPaginationClass));

    let a = orch.step(Event::PaginationClass(Some(
        "paginate_button next disabled".to_string(),
    )));
    assert!(matches!(a, Action::Finish));
    assert_eq!(orch.phase(), Phase::Done);

    let records = orch.into_records();
    assert_eq!(records.len(), 2);
    assert_eq!(records[0].full_name, "A B");
    assert_eq!(records[1].full_name, "C D");
}

#[test]
fn orchestrator_applies_all_filters_before_scraping() {
    let mut orch = Orchestrator::new(vec![2010, 2011]);
    let a = orch.step(Event::Started);
    match a {
        Action::ApplyFilter(xpath) => {
            assert_eq!(xpath, "//select[@class='widget-1']/option[@value='2010']")
        }
        _ => panic!("expected a filter action"),
    }
    let a = orch.step(Event::FilterApplied);
    match a {
        Action::ApplyFilter(xpath) => {
            assert_eq!(xpath, "//select[@class='widget-1']/option[@value='2011']")
        }
        _ => panic!("expected a filter action"),
    }
    let a = orch.step(Event::FilterApplied);
    assert!(matches!(a, Action::ReadPage));
}

#[test]
fn missing_filter_option_aborts_with_filter_not_found() {
    let mut orch = Orchestrator::new(vec![2010]);
    let _ = orch.step(Event::Started);
    let a = orch.step(Event::FilterMissing);
    assert!(matches!(a, Action::Abort(ScrapeError::FilterNotFound)));
    assert_eq!(orch.phase(), Phase::Failed);
}

#[test]
fn malformed_page_aborts_before_any_export() {
    let mut orch = Orchestrator::new(Vec::new());
    let _ = orch.step(Event::Started);
    let bad = "<html><body><table id=\"tablepress-25058\"><tbody>\
               <tr class=\"row-1\"><td class=\"column-1\">no anchor</td></tr>\
               </tbody></table></body></html>";
    let a = orch.step(Event::Page(bad.to_string()));
    assert!(matches!(a, Action::Abort(ScrapeError::MalformedRow)));
    assert_eq!(orch.phase(), Phase::Failed);
    assert!(orch.records().is_empty());
}

#[test]
fn missing_pagination_class_aborts_with_navigation_error() {
    let mut orch = Orchestrator::new(Vec::new());
    let _ = orch.step(Event::Started);
    let _ = orch.step(Event::Page(one_row_page("/skaters/rus/1", "1 | A B")));
    let a = orch.step(Event::PaginationClass(None));
    assert!(matches!(a, Action::Abort(ScrapeError::NavigationError)));
    assert_eq!(orch.phase(), Phase::Failed);
}

#[test]
fn driver_failure_aborts_with_navigation_error() {
    let mut orch = Orchestrator::new(Vec::new());
    let _ = orch.step(Event::Started);
    let a = orch.step(Event::Failure);
    assert!(matches!(a, Action::Abort(ScrapeError::NavigationError)));
    assert_eq!(orch.phase(), Phase::Failed);
}

fn sample_record(n: &str) -> Record {
    Record {
        profile_url: format!("/skaters/rus/{n}"),
        full_name: format!("Name {n}"),
        region: "Moscow".to_string(),
        birth_date: "15 03 1998".to_string(),
    }
}

#[test]
fn store_preserves_first_seen_order() {
    let mut store = RecordStore::new();
    store.append(sample_record("1"));
    store.append_all(&vec![sample_record("2"), sample_record("3")]);
    assert_eq!(store.len(), 3);
    let items = store.into_items();
    assert_eq!(items[0].profile_url, "/skaters/rus/1");
    assert_eq!(items[1].profile_url, "/skaters/rus/2");
    assert_eq!(items[2].profile_url, "/skaters/rus/3");
}

#[test]
fn export_rows_have_verbatim_header_and_field_order() {
    let records = vec![sample_record("1")];
    let rows = export_rows(&records);
    assert_eq!(rows.len(), 2);
    assert_eq!(
        rows[0],
        vec!["ФИО", "Дата рождения", "Регион", "Ссылка на профиль"]
    );
    assert_eq!(
        rows[1],
        vec!["Name 1", "15 03 1998", "Moscow", "/skaters/rus/1"]
    );
}

#[test]
fn error_descriptions_name_each_failure() {
    assert_eq!(ScrapeError::FilterNotFound.describe(), "filter option not found");
    assert_eq!(ScrapeError::NavigationError.describe(), "browser automation failed");
    assert_eq!(
        ScrapeError::MalformedRow.describe(),
        "data row is missing a required cell or anchor"
    );
    assert_eq!(
        ScrapeError::ExportError.describe(),
        "output file could not be written"
    );
}
