use gtrend::error::{Error, PAGE_TOO_LARGE};
use gtrend::markup::{count_tag_marks, is_parsable, MAX_MARKUP_BYTES, MAX_MARKUP_TAGS};

#[test]
fn markup_is_parsable_up_to_half_a_gigabyte() {
    assert_eq!(MAX_MARKUP_BYTES, 512 * 1024 * 1024);
    assert!(is_parsable(""));
    assert!(is_parsable("<html></html>"));
    let mut text = "x".repeat(MAX_MARKUP_BYTES);
    assert!(is_parsable(&text));
    text.push('x');
    assert!(!is_parsable(&text));
}

#[test]
fn length_of_markup_is_counted_in_bytes() {
    let mut text = "é".repeat(MAX_MARKUP_BYTES / 2);
    assert_eq!(text.chars().count(), MAX_MARKUP_BYTES / 2);
    assert!(is_parsable(&text));
    text.push('é');
    assert!(!is_parsable(&text));
}

#[test]
fn page_that_is_too_large_is_a_failure_of_its_own() {
    let text = " ".repeat(MAX_MARKUP_BYTES + 1);
    let out = gtrend::repos::builder().get_data(Ok(text));
    assert_eq!(out, Err(Error::Others(PAGE_TOO_LARGE.to_string())));
    assert_eq!(out.unwrap_err().to_string(), "the page is too large to be read");
}

#[test]
fn developers_page_that_is_too_large_is_a_failure_of_its_own() {
    let text = " ".repeat(MAX_MARKUP_BYTES + 1);
    let out = gtrend::developers::builder().get_data(Ok(text));
    assert_eq!(out, Err(Error::Others(PAGE_TOO_LARGE.to_string())));
}

#[test]
fn tags_are_counted_by_their_first_character() {
    assert_eq!(MAX_MARKUP_TAGS, 32768);
    assert_eq!(count_tag_marks(""), Some(0));
    assert_eq!(count_tag_marks("no tag at all > here"), Some(0));
    assert_eq!(count_tag_marks("<p>one</p>"), Some(2));
    assert_eq!(count_tag_marks("a < b << c"), Some(3));
    assert_eq!(count_tag_marks("é<ü<"), Some(2));
    assert_eq!(count_tag_marks(&"<".repeat(MAX_MARKUP_TAGS)), Some(MAX_MARKUP_TAGS));
    assert_eq!(count_tag_marks(&"<".repeat(MAX_MARKUP_TAGS + 1)), None);
    assert_eq!(count_tag_marks(&"<br>".repeat(MAX_MARKUP_TAGS + 7)), None);
}

#[test]
fn markup_is_parsable_up_to_its_limit_of_tags() {
    assert!(is_parsable(&"<i></i>".repeat(MAX_MARKUP_TAGS / 2)));
    assert!(!is_parsable(&format!("<b>{}", "<i></i>".repeat(MAX_MARKUP_TAGS / 2))));
}

#[test]
fn page_with_too_many_tags_is_a_failure_of_its_own() {
    let text = "<br>".repeat(MAX_MARKUP_TAGS + 1);
    let out = gtrend::repos::builder().get_data(Ok(text.clone()));
    assert_eq!(out, Err(Error::Others(PAGE_TOO_LARGE.to_string())));
    let out = gtrend::developers::builder().get_data(Ok(text));
    assert_eq!(out, Err(Error::Others(PAGE_TOO_LARGE.to_string())));
}

#[test]
fn page_at_the_limit_of_tags_is_read() {
    let row = "<div class=\"Box-row\"><h2><a href=\"/foo/bar\">t</a></h2></div>";
    let filler = "<i></i>".repeat((MAX_MARKUP_TAGS - 6) / 2);
    let text = format!("{}{}", row, filler);
    assert_eq!(count_tag_marks(&text), Some(MAX_MARKUP_TAGS));
    let data = gtrend::repos::builder().get_data(Ok(text)).unwrap();
    assert_eq!(data.len(), 1);
    assert_eq!(data[0].url, Some("https://github.com/foo/bar".to_string()));
}

#[test]
fn deeply_nested_page_is_read() {
    let text = format!(
        "<div class=\"Box-row\"><h2><a href=\"/foo/bar\">t</a></h2><p>{}  deep   down ",
        "<span>".repeat(6000)
    );
    let data = gtrend::repos::select_data(&text);
    assert_eq!(data.len(), 1);
    assert_eq!(data[0].author, Some("foo".to_string()));
    assert_eq!(data[0].description, Some("deep down".to_string()));
}

#[test]
fn deeply_nested_developer_is_read() {
    let text = format!(
        "<table><td><div class=\"Box-row\"><h1 class=\"lh-condensed\">{}<a href=\"/dora\">Dora</a>",
        "<table><td>".repeat(2500)
    );
    let data = gtrend::developers::select_data(&text);
    assert_eq!(data.len(), 1);
    assert_eq!(data[0].name, Some("Dora".to_string()));
    assert_eq!(data[0].username, Some("dora".to_string()));
}
