use sitewatch::keywords::{scan_keywords, text_contains};

#[test]
fn finds_keyword_regardless_of_case() {
    let text = b"Welcome to our new SHOP, now open!".to_vec();
    let pat = b"shop".to_vec();
    assert!(text_contains(&text, &pat));

    let text = b"welcome to our new shop".to_vec();
    let pat = b"SHOP".to_vec();
    assert!(text_contains(&text, &pat));
}

#[test]
fn does_not_find_absent_keyword() {
    let text = b"nothing interesting here".to_vec();
    let pat = b"shop".to_vec();
    assert!(!text_contains(&text, &pat));
}

#[test]
fn empty_pattern_occurs_in_every_text() {
    assert!(text_contains(&b"anything".to_vec(), &Vec::new()));
    assert!(text_contains(&Vec::new(), &Vec::new()));
}

#[test]
fn pattern_longer_than_text_never_occurs() {
    assert!(!text_contains(&b"abc".to_vec(), &b"abcd".to_vec()));
}

#[test]
fn match_at_the_very_end_is_found() {
    assert!(text_contains(&b"the merch store".to_vec(), &b"Store".to_vec()));
}

#[test]
fn scan_reports_any_matching_keyword() {
    let text = b"Limited MERCH drop this friday".to_vec();
    let keywords = vec![b"shop".to_vec(), b"merch".to_vec()];
    assert!(scan_keywords(&text, &keywords));
}

#[test]
fn scan_with_no_matching_keyword_is_false() {
    let text = b"an ordinary page".to_vec();
    let keywords = vec![b"shop".to_vec(), b"merch".to_vec()];
    assert!(!scan_keywords(&text, &keywords));
}

#[test]
fn scan_with_no_keywords_is_false() {
    let text = b"an ordinary page".to_vec();
    assert!(!scan_keywords(&text, &Vec::new()));
}
