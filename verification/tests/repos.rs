use gtrend::error::Error;
use gtrend::repos::{
    builder, parse_count, parse_leading_count, read_rows, select_data, AvatarTag, BuiltBy,
    RepoRow, Repository,
};
use gtrend::Since;

const FULL_ROW: &str = r##"
<article class="Box-row">
  <h2 class="h3 lh-condensed">
    <a href="/foo/bar" class="Link">
      <span class="text-normal">foo /</span> bar
    </a>
  </h2>
  <p class="col-9 color-fg-muted my-1 pr-4">
    A   sample
      description
  </p>
  <div class="f6 color-fg-muted mt-2">
    <span class="d-inline-block ml-0 mr-3">
      <span class="repo-language-color" style="background-color: #dea584"></span>
      <span itemprop="programmingLanguage">Rust</span>
    </span>
    <a href="/foo/bar/stargazers" class="Link Link--muted d-inline-block mr-3"> 1,234 </a>
    <a href="/foo/bar/forks" class="Link Link--muted d-inline-block mr-3"> 56 </a>
    <span class="d-inline-block mr-3">
      Built by
      <a class="d-inline-block" href="/alice"><img class="avatar mb-1 avatar-user"
        src="https://avatars.githubusercontent.com/u/1?s=40&amp;v=4" width="20" height="20"
        alt="@alice" /></a>
      <a class="d-inline-block" href="/bob"><img class="avatar mb-1 avatar-user"
        src="https://avatars.githubusercontent.com/u/2" alt="bob" /></a>
    </span>
    <span class="d-inline-block float-sm-right"> 1,234 stars today </span>
  </div>
</article>
"##;

const BARE_ROW: &str = r##"<article class="Box-row"><p>Sponsored</p></article>"##;

fn page(rows: &[&str]) -> String {
    format!("<html><body><main><div class=\"Box\">{}</div></main></body></html>", rows.concat())
}

fn empty_row() -> RepoRow {
    RepoRow {
        heading_href: None,
        star_badge: None,
        language: None,
        description: None,
        counts: Vec::new(),
        color_style: None,
        avatars: Vec::new(),
    }
}

fn some(s: &str) -> Option<String> {
    Some(s.to_string())
}

#[test]
fn one_well_formed_row_gives_one_full_record() {
    let data = select_data(&page(&[FULL_ROW]));
    assert_eq!(data.len(), 1);
    let repo = &data[0];
    assert_eq!(repo.author, some("foo"));
    assert_eq!(repo.name, some("bar"));
    assert_eq!(repo.url, some("https://github.com/foo/bar"));
    assert_eq!(repo.avatar, some("https://github.com/foo.png"));
    assert_eq!(repo.current_star, Some(1234));
    assert_eq!(repo.stars, Some(1234));
    assert_eq!(repo.forks, Some(56));
    assert_eq!(repo.description, some("A sample description"));
    assert_eq!(repo.programming_language, some("Rust"));
    assert_eq!(repo.lang_color, some("#dea584"));
    assert_eq!(
        repo.built_by,
        vec![
            BuiltBy {
                username: some("alice"),
                href: some("https://github.com/alice"),
                avatar: some("https://avatars.githubusercontent.com/u/1"),
            },
            BuiltBy {
                username: None,
                href: None,
                avatar: some("https://avatars.githubusercontent.com/u/2"),
            },
        ]
    );
}

#[test]
fn rows_are_read_as_they_stand_in_the_markup() {
    let rows = read_rows(&page(&[FULL_ROW]));
    assert_eq!(rows.len(), 1);
    let row = &rows[0];
    assert_eq!(row.heading_href, some("/foo/bar"));
    assert_eq!(row.star_badge, some(" 1,234 stars today "));
    assert_eq!(row.language, some("Rust"));
    assert_eq!(row.description, some("\n    A   sample\n      description\n  "));
    assert_eq!(row.counts, vec![" 1,234 ".to_string(), " 56 ".to_string()]);
    assert_eq!(row.color_style, some("background-color: #dea584"));
    assert_eq!(
        row.avatars,
        vec![
            AvatarTag {
                alt: some("@alice"),
                src: some("https://avatars.githubusercontent.com/u/1?s=40&v=4"),
            },
            AvatarTag { alt: some("bob"), src: some("https://avatars.githubusercontent.com/u/2") },
        ]
    );
}

#[test]
fn row_without_heading_link_does_not_stop_the_rows_after_it() {
    let data = select_data(&page(&[BARE_ROW, FULL_ROW, BARE_ROW]));
    assert_eq!(data.len(), 3);
    for bare in [&data[0], &data[2]] {
        assert_eq!(bare.author, None);
        assert_eq!(bare.name, None);
        assert_eq!(bare.url, None);
        assert_eq!(bare.avatar, None);
        assert_eq!(bare.current_star, None);
        assert_eq!(bare.stars, None);
        assert_eq!(bare.forks, None);
        assert_eq!(bare.programming_language, None);
        assert_eq!(bare.lang_color, None);
        assert_eq!(bare.description, some("Sponsored"));
        assert!(bare.built_by.is_empty());
    }
    assert_eq!(data[1].author, some("foo"));
    assert_eq!(data[1].name, some("bar"));
    assert_eq!(data[1].stars, Some(1234));
}

#[test]
fn heading_without_link_or_link_without_target_is_no_heading_link() {
    let no_link = r##"<div class="Box-row"><h2>title</h2><a href="/x/y">other</a></div>"##;
    let no_href = r##"<div class="Box-row"><h2><a name="top">title</a></h2></div>"##;
    let rows = read_rows(&page(&[no_link, no_href]));
    assert_eq!(rows.len(), 2);
    assert_eq!(rows[0].heading_href, None);
    assert_eq!(rows[1].heading_href, None);
    let data = select_data(&page(&[no_link, no_href]));
    assert_eq!(data[0].author, None);
    assert_eq!(data[1].url, None);
}

#[test]
fn markup_without_rows_gives_no_records() {
    assert!(select_data("").is_empty());
    assert!(select_data("<html><body><p class=\"Box\">nothing here</p></body></html>").is_empty());
    assert!(select_data("<div class=\"Box-rows\"></div>").is_empty());
}

#[test]
fn a_row_is_known_by_its_class_among_others() {
    let data = select_data("<div class=\"x Box-row\ty\"><h2><a href=\"/a/b\">t</a></h2></div>");
    assert_eq!(data.len(), 1);
    assert_eq!(data[0].url, some("https://github.com/a/b"));
}

#[test]
fn from_row_on_an_empty_row() {
    let record = Repository::from_row(&empty_row());
    assert_eq!(
        record,
        Repository {
            avatar: None,
            author: None,
            name: None,
            current_star: None,
            description: None,
            programming_language: None,
            url: None,
            stars: None,
            forks: None,
            lang_color: None,
            built_by: Vec::new(),
        }
    );
}

#[test]
fn from_row_on_plain_values() {
    let row = RepoRow {
        heading_href: some("/foo/bar"),
        star_badge: some("1,234 stars today"),
        language: some(" Rust "),
        description: some("  two\n words "),
        counts: vec!["1,234".to_string(), "56".to_string()],
        color_style: some("background-color: #dea584"),
        avatars: vec![AvatarTag { alt: some("@alice"), src: some("https://a.example/1?s=40") }],
    };
    let record = Repository::from_row(&row);
    assert_eq!(
        record,
        Repository {
            avatar: some("https://github.com/foo.png"),
            author: some("foo"),
            name: some("bar"),
            current_star: Some(1234),
            description: some("two words"),
            programming_language: some("Rust"),
            url: some("https://github.com/foo/bar"),
            stars: Some(1234),
            forks: Some(56),
            lang_color: some("#dea584"),
            built_by: vec![BuiltBy {
                username: some("alice"),
                href: some("https://github.com/alice"),
                avatar: some("https://a.example/1"),
            }],
        }
    );
}

#[test]
fn author_without_name_gives_avatar_but_no_address() {
    let mut row = empty_row();
    row.heading_href = some("/solo");
    let record = Repository::from_row(&row);
    assert_eq!(record.author, some("solo"));
    assert_eq!(record.name, None);
    assert_eq!(record.avatar, some("https://github.com/solo.png"));
    assert_eq!(record.url, None);

    row.heading_href = some("no-slash");
    let record = Repository::from_row(&row);
    assert_eq!(record.author, None);
    assert_eq!(record.name, None);
    assert_eq!(record.avatar, None);
    assert_eq!(record.url, None);

    row.heading_href = some("/foo/bar/baz");
    let record = Repository::from_row(&row);
    assert_eq!(record.author, some("foo"));
    assert_eq!(record.name, some("bar"));
    assert_eq!(record.url, some("https://github.com/foo/bar"));
}

#[test]
fn counts_that_are_missing_or_no_numbers_are_absent() {
    let mut row = empty_row();
    row.counts = vec!["12".to_string()];
    let record = Repository::from_row(&row);
    assert_eq!(record.stars, Some(12));
    assert_eq!(record.forks, None);

    row.counts = vec!["many".to_string(), " 3,000 ".to_string(), "9".to_string()];
    let record = Repository::from_row(&row);
    assert_eq!(record.stars, None);
    assert_eq!(record.forks, Some(3000));

    row.star_badge = some("stars today");
    assert_eq!(Repository::from_row(&row).current_star, None);
    row.star_badge = some("   ");
    assert_eq!(Repository::from_row(&row).current_star, None);
    row.star_badge = some("\n  25\u{a0}stars this week");
    assert_eq!(Repository::from_row(&row).current_star, Some(25));
}

#[test]
fn counter_texts() {
    assert_eq!(parse_count(" 1,234 "), Some(1234));
    assert_eq!(parse_count("56"), Some(56));
    assert_eq!(parse_count("1,234,567"), Some(1234567));
    assert_eq!(parse_count("4,294,967,295"), Some(4294967295));
    assert_eq!(parse_count("4,294,967,296"), None);
    assert_eq!(parse_count("1 234"), None);
    assert_eq!(parse_count(""), None);
    assert_eq!(parse_count(","), None);
    assert_eq!(parse_count("1.2k"), None);
    assert_eq!(parse_leading_count(" 1,234 stars today "), Some(1234));
    assert_eq!(parse_leading_count("7"), Some(7));
    assert_eq!(parse_leading_count("stars 7"), None);
    assert_eq!(parse_leading_count(""), None);
}

#[test]
fn colour_keeps_a_style_that_does_not_start_with_the_declaration() {
    let mut row = empty_row();
    row.color_style = some("color: red");
    assert_eq!(Repository::from_row(&row).lang_color, some("color: red"));
    row.color_style = some("background-color: #f1e05a");
    assert_eq!(Repository::from_row(&row).lang_color, some("#f1e05a"));
}

#[test]
fn built_by_from_tags() {
    let shown = BuiltBy::from_tag(&AvatarTag { alt: None, src: None });
    assert_eq!(shown, BuiltBy { username: None, href: None, avatar: None });
    let tag = AvatarTag { alt: some("picture of @carol"), src: some("x?y?z") };
    let shown = BuiltBy::from_tag(&tag);
    assert_eq!(
        shown,
        BuiltBy {
            username: some("carol"),
            href: some("https://github.com/carol"),
            avatar: some("x"),
        }
    );
}

#[test]
fn address_without_any_filter() {
    assert_eq!(builder().build(), "https://github.com/trending");
}

#[test]
fn address_with_known_language_and_span() {
    let url = builder().programming_language("Rust").since(Since::Weekly).build();
    assert_eq!(url, "https://github.com/trending/rust?since=weekly");
}

#[test]
fn address_with_unknown_language() {
    assert_eq!(
        builder().programming_language("fooscript").build(),
        "https://github.com/trending/fooscript"
    );
    assert_eq!(
        builder().programming_language("FooScript").build(),
        "https://github.com/trending/FooScript"
    );
}

#[test]
fn address_does_not_depend_on_the_case_of_a_known_language() {
    let want = "https://github.com/trending/rust";
    for name in ["rust", "Rust", "RUST", "rUsT"] {
        assert_eq!(builder().programming_language(name).build(), want);
    }
    for name in ["C++", "c++", "c%2B%2B", "C%2b%2b"] {
        assert_eq!(
            builder().programming_language(name).build(),
            "https://github.com/trending/c%2B%2B"
        );
    }
}

#[test]
fn address_with_every_part_of_the_query() {
    let both = builder().spoken_language("en").since(Since::Daily).programming_language("rust");
    assert_eq!(
        both.build(),
        "https://github.com/trending/rust?since=daily&spoken_language_code=en"
    );
    assert_eq!(
        builder().since(Since::Monthly).build(),
        "https://github.com/trending?since=monthly"
    );
    assert_eq!(
        builder().spoken_language("English").build(),
        "https://github.com/trending?spoken_language_code=en"
    );
    assert_eq!(
        builder().spoken_language("klingon").build(),
        "https://github.com/trending?spoken_language_code=klingon"
    );
    assert_eq!(
        builder().spoken_language("").since(Since::Daily).programming_language("rust").build(),
        "https://github.com/trending/rust?since=daily&spoken_language_code="
    );
}

#[test]
fn a_setting_made_twice_keeps_the_last() {
    let url = builder()
        .programming_language("go")
        .since(Since::Daily)
        .programming_language("Python")
        .since(Since::Monthly)
        .build();
    assert_eq!(url, "https://github.com/trending/python?since=monthly");
}

#[test]
fn failed_fetch_is_a_failure_not_an_empty_list() {
    let failure = Error::ReqwestError("connection refused".to_string());
    let out = builder().get_data(Err(failure.clone()));
    assert_eq!(out, Err(failure));
    let other = Error::Others("no body".to_string());
    assert_eq!(builder().get_data(Err(other.clone())), Err(other));
}

#[test]
fn fetched_page_without_rows_is_an_empty_success() {
    let out = builder().get_data(Ok("<html><body><h1>Trending</h1></body></html>".to_string()));
    assert_eq!(out, Ok(Vec::new()));
}

#[test]
fn fetched_page_with_rows_is_read() {
    let out = builder().since(Since::Daily).get_data(Ok(page(&[FULL_ROW, FULL_ROW])));
    let data = out.unwrap();
    assert_eq!(data.len(), 2);
    assert_eq!(data[0], data[1]);
    assert_eq!(data[0].url, some("https://github.com/foo/bar"));
}
