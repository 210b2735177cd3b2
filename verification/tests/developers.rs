use gtrend::developers::{builder, read_rows, select_data, Developer, DeveloperRow, Repo};
use gtrend::error::Error;
use gtrend::Since;

const FULL_ROW: &str = r##"
<article class="Box-row d-flex" id="pa-alice">
  <a href="#pa-alice" class="color-fg-muted f6" style="width: 16px;">1</a>
  <div class="mx-3">
    <a href="/alice"><img class="rounded avatar-user"
      src="https://avatars.githubusercontent.com/u/1?s=96&amp;v=4" width="48" height="48"
      alt="@alice" /></a>
  </div>
  <div class="d-sm-flex flex-auto">
    <div class="col-sm-8 d-md-flex">
      <div class="col-md-6">
        <h1 class="h3 lh-condensed"><a href="/alice"> Alice
           Liddell </a></h1>
        <p class="f4 text-normal mb-1"><a href="/alice">alice</a></p>
      </div>
      <div class="col-md-6">
        <div class="mt-2 mb-3 my-md-0">
          <article>
            <span class="color-fg-muted f6 text-uppercase">Popular repo</span>
            <h1 class="h4 lh-condensed"><a href="/alice/wonder"> wonder </a></h1>
            <div class="f6 color-fg-muted mt-1"> Down the   rabbit hole </div>
          </article>
        </div>
      </div>
    </div>
    <div class="col-sm-4 d-flex flex-sm-justify-end ml-sm-3">
      <div class="mr-2"><a href="/sponsors/alice" class="btn btn-sm"> Sponsor </a></div>
    </div>
  </div>
</article>
"##;

const PLAIN_ROW: &str = r##"
<article class="Box-row">
  <img src="https://avatars.githubusercontent.com/u/7" />
  <h1 class="h3 lh-condensed"><a href="/dora">Dora</a></h1>
</article>
"##;

const BARE_ROW: &str = r##"<article class="Box-row"><span>placeholder</span></article>"##;

fn page(rows: &[&str]) -> String {
    format!("<html><body>{}</body></html>", rows.concat())
}

fn some(s: &str) -> Option<String> {
    Some(s.to_string())
}

fn empty_row() -> DeveloperRow {
    DeveloperRow {
        heading_text: None,
        heading_href: None,
        image_src: None,
        repo_heading: None,
        sponsor_href: None,
        repo_blurb: None,
    }
}

#[test]
fn one_well_formed_developer_row() {
    let data = select_data(&page(&[FULL_ROW]));
    assert_eq!(
        data,
        vec![Developer {
            name: some("Alice Liddell"),
            username: some("alice"),
            url: some("https://github.com/alice"),
            sponsor_url: some("https://github.com/sponsors/alice"),
            avatar: some("https://avatars.githubusercontent.com/u/1"),
            repo: Some(Repo {
                name: some("wonder"),
                description: some("Down the rabbit hole"),
                url: some("https://github.com/alice/wonder"),
            }),
        }]
    );
}

#[test]
fn developer_rows_are_read_as_they_stand_in_the_markup() {
    let rows = read_rows(&page(&[FULL_ROW]));
    assert_eq!(
        rows,
        vec![DeveloperRow {
            heading_text: some(" Alice\n           Liddell "),
            heading_href: some("/alice"),
            image_src: some("https://avatars.githubusercontent.com/u/1?s=96&v=4"),
            repo_heading: some(" wonder "),
            sponsor_href: some("/sponsors/alice"),
            repo_blurb: some(" Down the   rabbit hole "),
        }]
    );
}

#[test]
fn developer_without_repository_or_sponsorship() {
    let data = select_data(&page(&[BARE_ROW, PLAIN_ROW, FULL_ROW]));
    assert_eq!(data.len(), 3);
    assert_eq!(
        data[0],
        Developer {
            name: None,
            username: None,
            url: None,
            sponsor_url: None,
            avatar: None,
            repo: None,
        }
    );
    assert_eq!(
        data[1],
        Developer {
            name: some("Dora"),
            username: some("dora"),
            url: some("https://github.com/dora"),
            sponsor_url: None,
            avatar: some("https://avatars.githubusercontent.com/u/7"),
            repo: None,
        }
    );
    assert_eq!(data[2].username, some("alice"));
}

#[test]
fn developer_from_row_on_plain_values() {
    let mut row = empty_row();
    row.repo_heading = some("  tool  box ");
    row.repo_blurb = some("does\nthings");
    let record = Developer::from_row(&row);
    assert_eq!(
        record.repo,
        Some(Repo { name: some("tool box"), description: some("does things"), url: None })
    );
    assert_eq!(record.url, None);

    row.heading_href = some("/erin");
    let record = Developer::from_row(&row);
    assert_eq!(record.username, some("erin"));
    assert_eq!(record.url, some("https://github.com/erin"));
    assert_eq!(record.repo.unwrap().url, some("https://github.com/erin/tool box"));

    row.heading_href = some("erin");
    let record = Developer::from_row(&row);
    assert_eq!(record.username, None);
    assert_eq!(record.url, None);

    row.sponsor_href = some("/sponsors/erin");
    row.image_src = some("pic.png?size=1");
    row.heading_text = some("\tErin\t");
    let record = Developer::from_row(&row);
    assert_eq!(record.sponsor_url, some("https://github.com/sponsors/erin"));
    assert_eq!(record.avatar, some("pic.png"));
    assert_eq!(record.name, some("Erin"));
}

#[test]
fn developers_markup_without_rows_gives_no_records() {
    assert!(select_data("<html></html>").is_empty());
    assert!(select_data("").is_empty());
}

#[test]
fn developers_address() {
    assert_eq!(builder().build(), "https://github.com/trending/developers");
    assert_eq!(
        builder().programming_language("Rust").build(),
        "https://github.com/trending/developers/rust"
    );
    assert_eq!(
        builder().since(Since::Monthly).build(),
        "https://github.com/trending/developers?since=monthly"
    );
    assert_eq!(
        builder().programming_language("RUST").since(Since::Daily).build(),
        "https://github.com/trending/developers/rust?since=daily"
    );
    assert_eq!(
        builder().since(Since::Weekly).programming_language("no such language").build(),
        "https://github.com/trending/developers/no such language?since=weekly"
    );
}

#[test]
fn developers_failed_fetch_is_a_failure() {
    let failure = Error::ReqwestError("timed out".to_string());
    assert_eq!(builder().get_data(Err(failure.clone())), Err(failure));
}

#[test]
fn developers_fetched_page_is_read() {
    assert_eq!(builder().get_data(Ok("<p>none</p>".to_string())), Ok(Vec::new()));
    let data = builder().get_data(Ok(page(&[FULL_ROW]))).unwrap();
    assert_eq!(data.len(), 1);
    assert_eq!(data[0].username, some("alice"));
}
