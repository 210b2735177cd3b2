use gtrend::error::Error;
use gtrend::{languages, profile_url, spoken_languages, By, Language, Since};

fn entry(url_param: &str, name: &str) -> Language {
    Language { url_param: url_param.to_string(), name: name.to_string() }
}

#[test]
fn tables_hold_what_is_written_down() {
    let data = languages::get_data();
    assert_eq!(data.len(), languages::LANGUAGES.len());
    assert_eq!(data[0], entry("unknown", "Unknown languages"));
    for (i, row) in languages::LANGUAGES.iter().enumerate() {
        assert_eq!(data[i], entry(row.0, row.1));
    }
    let spoken = spoken_languages::get_data();
    assert_eq!(spoken.len(), spoken_languages::SPOKEN_LANGUAGES.len());
    assert_eq!(spoken[0], entry("ab", "Abkhazian"));
    assert_eq!(spoken[spoken.len() - 1], entry("zu", "Zulu"));
}

#[test]
fn find_by_each_criterion() {
    assert_eq!(languages::find(By::Name("Rust")), Some(entry("rust", "Rust")));
    assert_eq!(languages::find(By::Name("rUST")), Some(entry("rust", "Rust")));
    assert_eq!(languages::find(By::UrlParam("rust")), Some(entry("rust", "Rust")));
    assert_eq!(languages::find(By::Both("RUST")), Some(entry("rust", "Rust")));
    assert_eq!(languages::find(By::Name("C++")), Some(entry("c%2B%2B", "C++")));
    assert_eq!(languages::find(By::UrlParam("c%2b%2b")), Some(entry("c%2B%2B", "C++")));
    assert_eq!(languages::find(By::Name("c%2B%2B")), None);
    assert_eq!(languages::find(By::UrlParam("C++")), None);
    assert_eq!(languages::find(By::Both("c++")), Some(entry("c%2B%2B", "C++")));
    assert_eq!(languages::find(By::Name("jupyter notebook")),
        Some(entry("jupyter-notebook", "Jupyter Notebook")));
    assert_eq!(languages::find(By::UrlParam("jupyter notebook")), None);
    assert_eq!(languages::find(By::Both("fooscript")), None);
    assert_eq!(languages::find(By::Both("")), None);
}

#[test]
fn find_takes_the_first_entry_that_matches() {
    let table = vec![entry("a", "First"), entry("first", "Second"), entry("A", "Third")];
    assert_eq!(Language::find_in(&table, &By::Both("FIRST")), Some(entry("a", "First")));
    assert_eq!(Language::find_in(&table, &By::UrlParam("FIRST")), Some(entry("first", "Second")));
    assert_eq!(Language::find_in(&table, &By::UrlParam("a")), Some(entry("a", "First")));
    assert_eq!(Language::find_in(&table, &By::Name("third")), Some(entry("A", "Third")));
    assert_eq!(Language::find_in(&table, &By::Name("a")), None);
    assert_eq!(Language::find_in(&Vec::new(), &By::Both("a")), None);
}

#[test]
fn position_of_the_first_accepted_entry() {
    let table = vec![entry("a", "first"), entry("first", "second"), entry("a", "third")];
    assert_eq!(By::Both("first").position_in(&table), Some(0));
    assert_eq!(By::UrlParam("first").position_in(&table), Some(1));
    assert_eq!(By::Name("first").position_in(&table), Some(0));
    assert_eq!(By::UrlParam("a").position_in(&table), Some(0));
    assert_eq!(By::Name("third").position_in(&table), Some(2));
    assert_eq!(By::Both("third").position_in(&table), Some(2));
    assert_eq!(By::Name("a").position_in(&table), None);
    assert_eq!(By::Both("First").position_in(&table), None);
    assert_eq!(By::Both("").position_in(&table), None);
    assert_eq!(By::Both("a").position_in(&Vec::new()), None);
}

#[test]
fn table_and_key_in_lower_case() {
    let table = vec![entry("C%2B%2B", "C++"), entry("go", "Go"), entry("ÄB", "Ünï")];
    assert_eq!(
        Language::fold_all(&table),
        vec![entry("c%2b%2b", "c++"), entry("go", "go"), entry("äb", "ünï")]
    );
    assert_eq!(Language::fold_all(&Vec::new()), Vec::new());
    assert_eq!(By::Name("RuSt").lowered_text(), "rust");
    assert_eq!(By::UrlParam("VOLAPÜK").lowered_text(), "volapük");
    assert_eq!(By::Both("").lowered_text(), "");
    assert!(matches!(By::Name("x").with_text("y"), By::Name("y")));
    assert!(matches!(By::UrlParam("x").with_text("y"), By::UrlParam("y")));
    assert!(matches!(By::Both("x").with_text(""), By::Both("")));
}

#[test]
fn slug_of_a_name() {
    let table = vec![entry("c%2B%2B", "C++"), entry("go", "Go")];
    assert_eq!(Language::slug_in(&table, "c++"), "c%2B%2B");
    assert_eq!(Language::slug_in(&table, "GO"), "go");
    assert_eq!(Language::slug_in(&table, "Gopher"), "Gopher");
    assert_eq!(Language::slug_in(&table, ""), "");
}

#[test]
fn matching_is_letter_for_letter_once_folded() {
    let rust = entry("rust", "Rust");
    assert!(By::Name("Rust").accepts(&rust));
    assert!(!By::Name("rust").accepts(&rust));
    assert!(By::UrlParam("rust").accepts(&rust));
    assert!(!By::UrlParam("Rust").accepts(&rust));
    assert!(By::Both("rust").accepts(&rust));
    assert!(By::Both("Rust").accepts(&rust));
    assert!(!By::Both("RUST").accepts(&rust));
    assert!(rust.is_match(&By::Both("RUST")));
    assert!(rust.is_match(&By::Name("rust")));
    assert!(!rust.is_match(&By::Name("rus")));
    assert_eq!(By::Name("x").wanted(), "x");
    assert_eq!(By::UrlParam("y").wanted(), "y");
    assert_eq!(By::Both("z").wanted(), "z");
}

#[test]
fn folding_reaches_beyond_ascii() {
    assert_eq!(entry("ÄB", "Ünï").folded(), entry("äb", "ünï"));
    assert_eq!(
        spoken_languages::find_by_name("VOLAPÜK"),
        Some(entry("vo", "Volapük"))
    );
    assert_eq!(
        spoken_languages::find_by_name("norwegian bokmål"),
        Some(entry("nb", "Norwegian Bokmål"))
    );
}

#[test]
fn spoken_language_by_each_criterion() {
    assert_eq!(spoken_languages::find_by_name("english"), Some(entry("en", "English")));
    assert_eq!(spoken_languages::find_by_name("en"), None);
    assert_eq!(spoken_languages::find_by_url_param("EN"), Some(entry("en", "English")));
    assert_eq!(spoken_languages::find_by_url_param("English"), None);
    assert_eq!(spoken_languages::find_by_both("En"), Some(entry("en", "English")));
    assert_eq!(spoken_languages::find_by_both("ENGLISH"), Some(entry("en", "English")));
    assert_eq!(spoken_languages::find_by_both("klingon"), None);
    assert_eq!(spoken_languages::find_by_both(""), None);
}

#[test]
fn since_words() {
    assert_eq!(Since::Daily.to_str(), "daily");
    assert_eq!(Since::Weekly.to_str(), "weekly");
    assert_eq!(Since::Monthly.to_str(), "monthly");
    assert_eq!(Since::Daily.to_string(), "daily".to_string());
    assert_eq!(Since::Weekly.to_string(), "weekly".to_string());
    assert_eq!(Since::Monthly.to_string(), "monthly".to_string());
    for span in [Since::Daily, Since::Weekly, Since::Monthly] {
        assert_eq!(span.to_str(), span.to_str());
        assert_eq!(Since::from_str(span.to_str()), Some(span));
        assert_eq!(Since::from_lowercase(span.to_str()), Some(span));
    }
}

#[test]
fn since_is_read_in_any_case() {
    assert_eq!(Since::from_str("Daily"), Some(Since::Daily));
    assert_eq!(Since::from_str("WEEKLY"), Some(Since::Weekly));
    assert_eq!(Since::from_str("mOnThLy"), Some(Since::Monthly));
    assert_eq!(Since::from_str("yearly"), None);
    assert_eq!(Since::from_str(""), None);
    assert_eq!(Since::from_str(" daily"), None);
    assert_eq!(Since::from_lowercase("Daily"), None);
    assert_eq!(Since::from_lowercase("weekly"), Some(Since::Weekly));
}

#[test]
fn plain_since_reads_exact_words_and_falls_back_to_the_day() {
    assert_eq!(gtrend::gtrend::Since::from_string("weekly"), gtrend::gtrend::Since::Weekly);
    assert_eq!(gtrend::gtrend::Since::from_string("monthly"), gtrend::gtrend::Since::Monthly);
    assert_eq!(gtrend::gtrend::Since::from_string("Weekly"), gtrend::gtrend::Since::Daily);
    assert_eq!(gtrend::gtrend::Since::from_string(""), gtrend::gtrend::Since::Daily);
    assert_eq!(gtrend::gtrend::Since::from_string("yearly"), gtrend::gtrend::Since::Daily);
    assert_eq!(gtrend::gtrend::Since::Weekly.to_string(), "weekly");
    assert_eq!(gtrend::gtrend::Since::Monthly.to_string(), "monthly");
    for span in [
        gtrend::gtrend::Since::Daily,
        gtrend::gtrend::Since::Weekly,
        gtrend::gtrend::Since::Monthly,
    ] {
        assert_eq!(gtrend::gtrend::Since::from_string(span.to_string()), span);
    }
}

#[test]
fn profile_address() {
    assert_eq!(profile_url("alice"), "https://github.com/alice");
    assert_eq!(profile_url(""), "https://github.com/");
}

#[test]
fn error_shows_its_text() {
    assert_eq!(Error::ReqwestError("refused".to_string()).to_string(), "refused");
    assert_eq!(Error::Others("odd".to_string()).to_string(), "odd");
}
