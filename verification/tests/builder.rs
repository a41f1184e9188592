use sitewatch::website_data::{wd, ConfigError, WebsiteDataBuilder};
use sitewatch::SCALE;

#[test]
fn default_builder_has_documented_defaults() {
    let b = WebsiteDataBuilder::default();
    assert_eq!(b.url, "");
    assert!(b.inner_scripts.is_none());
    assert!(b.screenshot_selector.is_none());
    assert_eq!(b.wait, 0);
    assert_eq!(b.threshold, 990_000);
    assert_eq!(b.max_confirms, 3);
}

#[test]
fn wd_sets_url_and_keeps_defaults() {
    let b = wd("https://example.org");
    assert_eq!(b.url, "https://example.org");
    assert!(b.inner_scripts.is_none());
    assert_eq!(b.threshold, 990_000);
    assert_eq!(b.max_confirms, 3);
}

#[test]
fn setters_update_their_fields() {
    let b = wd("https://example.org")
        .url(String::from("https://example.com"))
        .selector(String::from("#main"))
        .wait(1500)
        .threshold(900_000)
        .confirmations(5);
    assert_eq!(b.url, "https://example.com");
    assert_eq!(b.screenshot_selector.as_deref(), Some("#main"));
    assert_eq!(b.wait, 1500);
    assert_eq!(b.threshold, 900_000);
    assert_eq!(b.max_confirms, 5);
}

#[test]
fn add_script_wraps_in_anonymous_function() {
    let b = wd("https://example.org").add_script(String::from("alert(1)"));
    let scripts = b.inner_scripts.as_ref().expect("scripts should exist");
    assert_eq!(scripts.len(), 1);
    assert_eq!(scripts[0], "()=>{alert(1)}");
}

#[test]
fn add_script_appends_in_order() {
    let b = wd("https://example.org")
        .add_script(String::from("first()"))
        .add_script(String::from("second()"));
    let scripts = b.inner_scripts.as_ref().expect("scripts should exist");
    assert_eq!(scripts.len(), 2);
    assert_eq!(scripts[0], "()=>{first()}");
    assert_eq!(scripts[1], "()=>{second()}");
}

#[test]
fn remove_elements_builds_query_selector_script() {
    let b = wd("https://example.org")
        .remove_elements(vec![String::from(".ad"), String::from("#banner")]);
    let scripts = b.inner_scripts.as_ref().expect("scripts should exist");
    assert_eq!(scripts.len(), 1);
    assert_eq!(
        scripts[0],
        "()=>{document.querySelectorAll('.ad, #banner')?.forEach(a => a?.remove());}"
    );
}

#[test]
fn remove_elements_single_selector_has_no_separator() {
    let b = wd("https://example.org").remove_elements(vec![String::from(".ad")]);
    let scripts = b.inner_scripts.as_ref().expect("scripts should exist");
    assert_eq!(
        scripts[0],
        "()=>{document.querySelectorAll('.ad')?.forEach(a => a?.remove());}"
    );
}

#[test]
fn build_rejects_empty_url() {
    let r = WebsiteDataBuilder::default().build();
    assert_eq!(r.unwrap_err(), ConfigError::EmptyUrl);
}

#[test]
fn build_rejects_zero_confirmations() {
    let r = wd("https://example.org").confirmations(0).build();
    assert_eq!(r.unwrap_err(), ConfigError::ZeroConfirmations);
}

#[test]
fn build_rejects_zero_threshold() {
    let r = wd("https://example.org").threshold(0).build();
    assert_eq!(r.unwrap_err(), ConfigError::ThresholdOutOfRange);
}

#[test]
fn build_rejects_threshold_of_one_or_more() {
    let r = wd("https://example.org").threshold(SCALE).build();
    assert_eq!(r.unwrap_err(), ConfigError::ThresholdOutOfRange);
    let r = wd("https://example.org").threshold(SCALE + 1).build();
    assert_eq!(r.unwrap_err(), ConfigError::ThresholdOutOfRange);
}

#[test]
fn build_reports_empty_url_before_other_faults() {
    let r = WebsiteDataBuilder::default().confirmations(0).threshold(0).build();
    assert_eq!(r.unwrap_err(), ConfigError::EmptyUrl);
}

#[test]
fn build_accepts_valid_settings_and_zeroes_state() {
    let site = wd("https://example.org")
        .wait(250)
        .threshold(950_000)
        .confirmations(4)
        .build()
        .expect("valid settings should build");
    assert_eq!(site.url(), "https://example.org");
    assert_eq!(site.wait(), 250);
    assert_eq!(site.threshold(), 950_000);
    assert_eq!(site.max_confirms(), 4);
    assert!(site.scripts().is_none());
    assert!(site.screenshot_selector().is_none());
    assert!(site.last_image.is_none());
    assert!(!site.merch_already_detected);
    assert_eq!(site.get_runs(), 0);
    assert_eq!(site.changes_stacking, 0);
    assert_eq!(site.current_cooldown, 0);
    assert_eq!(site.total_cooldowns, 0);
}

#[test]
fn build_accepts_boundary_thresholds_inside_the_open_interval() {
    assert!(wd("https://example.org").threshold(1).build().is_ok());
    assert!(wd("https://example.org").threshold(SCALE - 1).build().is_ok());
}
