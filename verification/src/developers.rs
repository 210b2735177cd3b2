//! The trending developers listing: its records, the rules that turn one listing row into
//! a record, and the filter that names the page to read.

use crate::markup::{find_class, is_parsable, nodes_of_class, parsable, Page};
use crate::probe::{
    class_link, class_link_of, class_text, class_text_of, name_attr, name_attr_of,
};
use crate::text::{before_first, concat, escape, nth_segment, segment, squeezed, take_before};
use crate::error::{Error, ErrorView, PAGE_TOO_LARGE};
use crate::languages::language_table;
use crate::{
    first_match, found_in, language_path, lemma_first_match, lowercase_of, profile_of,
    profile_url, render_language_path, slug_for, ByView, Language, Since, GITHUB_BASE_URL,
    GITHUB_TRENDING_URL,
};
use vstd::prelude::*;

verus! {

/// The repository that a developer is trending with.
#[derive(Debug, Clone, PartialEq, Eq)]
pub struct Repo {
    pub name: Option<String>,
    pub description: Option<String>,
    pub url: Option<String>,
}

/// What a `Repo` holds.
pub struct RepoView {
    pub name: Option<Seq<char>>,
    pub description: Option<Seq<char>>,
    pub url: Option<Seq<char>>,
}

impl View for Repo {
    type V = RepoView;

    open spec fn view(&self) -> RepoView {
        RepoView {
            name: self.name.deep_view(),
            description: self.description.deep_view(),
            url: self.url.deep_view(),
        }
    }
}

impl DeepView for Repo {
    type V = RepoView;

    open spec fn deep_view(&self) -> RepoView {
        self@
    }
}

/// One trending developer.
#[derive(Debug, Clone, PartialEq, Eq)]
pub struct Developer {
    pub name: Option<String>,
    pub username: Option<String>,
    pub url: Option<String>,
    pub sponsor_url: Option<String>,
    pub avatar: Option<String>,
    pub repo: Option<Repo>,
}

/// What a `Developer` holds.
pub struct DeveloperView {
    pub name: Option<Seq<char>>,
    pub username: Option<Seq<char>>,
    pub url: Option<Seq<char>>,
    pub sponsor_url: Option<Seq<char>>,
    pub avatar: Option<Seq<char>>,
    pub repo: Option<RepoView>,
}

impl DeveloperView {
    /// The profile address is there exactly when the user name is; a repository, where
    /// there is one, has a name, and has an address exactly when the user name is there.
    pub open spec fn wf(self) -> bool {
        &&& self.url is Some <==> self.username is Some
        &&& self.repo is Some ==> self.repo->0.name is Some && (self.repo->0.url is Some
            <==> self.username is Some)
    }
}

impl View for Developer {
    type V = DeveloperView;

    open spec fn view(&self) -> DeveloperView {
        DeveloperView {
            name: self.name.deep_view(),
            username: self.username.deep_view(),
            url: self.url.deep_view(),
            sponsor_url: self.sponsor_url.deep_view(),
            avatar: self.avatar.deep_view(),
            repo: self.repo.deep_view(),
        }
    }
}

impl DeepView for Developer {
    type V = DeveloperView;

    open spec fn deep_view(&self) -> DeveloperView {
        self@
    }
}

/// One row of the developers listing as it stands in the markup: the texts and attributes
/// that the rules read, before any rule is applied. A field is absent where the row has no
/// such element or attribute.
#[derive(Debug, Clone, PartialEq, Eq)]
pub struct DeveloperRow {
    /// Text of the condensed heading.
    pub heading_text: Option<String>,
    /// Link target of the condensed heading.
    pub heading_href: Option<String>,
    /// `src` attribute of the first image.
    pub image_src: Option<String>,
    /// Text of the secondary heading, which names the repository.
    pub repo_heading: Option<String>,
    /// Link target of the sponsorship badge.
    pub sponsor_href: Option<String>,
    /// Text of the block that describes the repository.
    pub repo_blurb: Option<String>,
}

/// What a `DeveloperRow` holds.
pub struct DeveloperRowView {
    pub heading_text: Option<Seq<char>>,
    pub heading_href: Option<Seq<char>>,
    pub image_src: Option<Seq<char>>,
    pub repo_heading: Option<Seq<char>>,
    pub sponsor_href: Option<Seq<char>>,
    pub repo_blurb: Option<Seq<char>>,
}

impl View for DeveloperRow {
    type V = DeveloperRowView;

    open spec fn view(&self) -> DeveloperRowView {
        DeveloperRowView {
            heading_text: self.heading_text.deep_view(),
            heading_href: self.heading_href.deep_view(),
            image_src: self.image_src.deep_view(),
            repo_heading: self.repo_heading.deep_view(),
            sponsor_href: self.sponsor_href.deep_view(),
            repo_blurb: self.repo_blurb.deep_view(),
        }
    }
}

impl DeepView for DeveloperRow {
    type V = DeveloperRowView;

    open spec fn deep_view(&self) -> DeveloperRowView {
        self@
    }
}

/// `text` with white space collapsed, where there is a text.
pub open spec fn squeezed_opt(text: Option<Seq<char>>) -> Option<Seq<char>> {
    match text {
        Some(t) => Some(squeezed(t)),
        None => None,
    }
}

/// The record that a row of the listing stands for.
pub open spec fn developer_of(row: DeveloperRowView) -> DeveloperView {
    let username = match row.heading_href {
        Some(href) => segment(href, '/', 1),
        None => None,
    };
    let url = match username {
        Some(user) => Some(profile_of(user)),
        None => None,
    };
    DeveloperView {
        name: squeezed_opt(row.heading_text),
        username,
        url,
        sponsor_url: match row.sponsor_href {
            Some(href) => Some(GITHUB_BASE_URL@ + href),
            None => None,
        },
        avatar: match row.image_src {
            Some(src) => Some(before_first(src, '?')),
            None => None,
        },
        repo: match squeezed_opt(row.repo_heading) {
            Some(repo_name) => Some(
                RepoView {
                    name: Some(repo_name),
                    description: squeezed_opt(row.repo_blurb),
                    url: match url {
                        Some(profile) => Some(profile + "/"@ + repo_name),
                        None => None,
                    },
                },
            ),
            None => None,
        },
    }
}

/// Collapses the white space of a text, where there is a text.
pub fn escape_opt(text: &Option<String>) -> (out: Option<String>)
    ensures
        out.deep_view() == squeezed_opt(text.deep_view()),
{
    match text {
        Some(t) => Some(escape(t.as_str())),
        None => None,
    }
}

impl Developer {
    /// Applies the extraction rules to one row of the listing.
    pub fn from_row(row: &DeveloperRow) -> (record: Developer)
        ensures
            record@ == developer_of(row@),
            record@.wf(),
    {
        let name = escape_opt(&row.heading_text);
        let username = match &row.heading_href {
            Some(href) => nth_segment(href.as_str(), '/', 1),
            None => None,
        };
        let url = match &username {
            Some(user) => Some(profile_url(user.as_str())),
            None => None,
        };
        let sponsor_url = match &row.sponsor_href {
            Some(href) => Some(concat(GITHUB_BASE_URL, href.as_str())),
            None => None,
        };
        let avatar = match &row.image_src {
            Some(src) => Some(take_before(src.as_str(), '?')),
            None => None,
        };
        let repo = match escape_opt(&row.repo_heading) {
            Some(repo_name) => {
                let repo_url = match &url {
                    Some(profile) => {
                        let folder = concat(profile.as_str(), "/");
                        Some(concat(folder.as_str(), repo_name.as_str()))
                    },
                    None => None,
                };
                Some(
                    Repo {
                        name: Some(repo_name),
                        description: escape_opt(&row.repo_blurb),
                        url: repo_url,
                    },
                )
            },
            None => None,
        };
        Developer { name, username, url, sponsor_url, avatar, repo }
    }
}

/// What the row at node `row` of the page parsed from `html` holds.
pub open spec fn developer_row_of(html: Seq<char>, row: usize) -> DeveloperRowView {
    DeveloperRowView {
        heading_text: class_text_of(html, row, "lh-condensed"@),
        heading_href: class_link_of(html, row, "lh-condensed"@),
        image_src: name_attr_of(html, row, "img"@, "src"@),
        repo_heading: class_text_of(html, row, "h4"@),
        sponsor_href: class_link_of(html, row, "mr-2"@),
        repo_blurb: class_text_of(html, row, "mt-1"@),
    }
}

/// The rows of the listing in the markup `html`, in page order: one for every element
/// whose class list holds `Box-row`.
pub open spec fn developer_rows_of(html: Seq<char>) -> Seq<DeveloperRowView> {
    nodes_of_class(html, "Box-row"@).map_values(|row: usize| developer_row_of(html, row))
}

/// The records of the listing in the markup `html`, one for every row, in page order.
pub open spec fn developers_of(html: Seq<char>) -> Seq<DeveloperView> {
    developer_rows_of(html).map_values(|row: DeveloperRowView| developer_of(row))
}

/// Reads the row at node `row` of `page`.
pub(crate) fn read_row(page: &Page, row: usize) -> (out: DeveloperRow)
    requires
        page.wf(),
    ensures
        out@ == developer_row_of(page@, row),
{
    DeveloperRow {
        heading_text: class_text(page, row, "lh-condensed"),
        heading_href: class_link(page, row, "lh-condensed"),
        image_src: name_attr(page, row, "img", "src"),
        repo_heading: class_text(page, row, "h4"),
        sponsor_href: class_link(page, row, "mr-2"),
        repo_blurb: class_text(page, row, "mt-1"),
    }
}

/// Reads every row of the listing out of the markup `html`, in page order. The markup is
/// small enough to be parsed; `is_parsable` tells.
pub fn read_rows(html: &str) -> (rows: Vec<DeveloperRow>)
    requires
        parsable(html@),
    ensures
        rows.deep_view() == developer_rows_of(html@),
        rows.len() == developer_rows_of(html@).len(),
{
    let page = Page::parse(html);
    let nodes = find_class(&page, "Box-row");
    let mut rows: Vec<DeveloperRow> = Vec::new();
    let mut i: usize = 0;
    while i < nodes.len()
        invariant
            0 <= i <= nodes.len(),
            page.wf(),
            page@ == html@,
            nodes@ == nodes_of_class(html@, "Box-row"@),
            rows.len() == i,
            forall|j: int| 0 <= j < i ==> rows[j]@ == developer_row_of(html@, nodes[j]),
        decreases nodes.len() - i,
    {
        rows.push(read_row(&page, nodes[i]));
        i += 1;
    }
    assert(rows.deep_view() =~= developer_rows_of(html@));
    rows
}

/// Extracts the records of the listing from the markup `html`: one record for every row,
/// in page order, whatever the row holds. The markup is small enough to be parsed;
/// `is_parsable` tells.
pub fn select_data(html: &str) -> (records: Vec<Developer>)
    requires
        parsable(html@),
    ensures
        records.deep_view() == developers_of(html@),
        records.len() == developer_rows_of(html@).len(),
        forall|i: int| 0 <= i < records.len() ==> (#[trigger] records[i])@.wf(),
{
    let rows = read_rows(html);
    let mut records: Vec<Developer> = Vec::new();
    let mut i: usize = 0;
    while i < rows.len()
        invariant
            0 <= i <= rows.len(),
            records.len() == i,
            forall|j: int| 0 <= j < i ==> records[j]@ == developer_of(rows[j]@),
            forall|j: int| 0 <= j < i ==> (#[trigger] records[j])@.wf(),
        decreases rows.len() - i,
    {
        records.push(Developer::from_row(&rows[i]));
        i += 1;
    }
    assert(records.deep_view() =~= rows.deep_view().map_values(
        |row: DeveloperRowView| developer_of(row),
    ));
    records
}

/// The filter of a developers listing: each part is set or left open.
#[derive(Debug, Clone, PartialEq, Eq)]
pub struct Builder {
    pro_lang: Option<String>,
    since: Option<Since>,
}

/// What a `Builder` holds: the programming language in the form in which it stands in an
/// address, and the span of time.
pub struct BuilderView {
    pub pro_lang: Option<Seq<char>>,
    pub since: Option<Since>,
}

/// The query of a developers address: the span where it is set, else nothing.
pub open spec fn query_of(since: Option<Since>) -> Seq<char> {
    match since {
        Some(span) => "?since="@ + span.text(),
        None => Seq::empty(),
    }
}

impl BuilderView {
    /// The filter with nothing set.
    pub open spec fn unset() -> BuilderView {
        BuilderView { pro_lang: None, since: None }
    }

    /// The filter narrowed to the programming language called `name`.
    pub open spec fn with_programming_language(self, name: Seq<char>) -> BuilderView {
        BuilderView { pro_lang: Some(slug_for(language_table(), name)), ..self }
    }

    /// The filter narrowed to the span `since`.
    pub open spec fn with_since(self, since: Since) -> BuilderView {
        BuilderView { since: Some(since), ..self }
    }

    /// The address of the listing that the filter selects.
    pub open spec fn url(self) -> Seq<char> {
        GITHUB_TRENDING_URL@ + "/developers"@ + language_path(self.pro_lang) + query_of(self.since)
    }
}

impl View for Builder {
    type V = BuilderView;

    closed spec fn view(&self) -> BuilderView {
        BuilderView { pro_lang: self.pro_lang.deep_view(), since: self.since }
    }
}

impl Builder {
    /// Narrows the listing to a programming language. A name that the table of
    /// programming languages knows, in whatever case, is replaced by the form in which
    /// that language stands in an address; any other name is kept as it is.
    pub fn programming_language(self, lang: &str) -> (out: Self)
        ensures
            out@ == self@.with_programming_language(lang@),
    {
        let table = crate::languages::get_data();
        let slug = Language::slug_in(&table, lang);
        Builder { pro_lang: Some(slug), since: self.since }
    }

    /// Narrows the listing to a span of time.
    pub fn since(self, since: Since) -> (out: Self)
        ensures
            out@ == self@.with_since(since),
    {
        Builder { pro_lang: self.pro_lang, since: Some(since) }
    }

    /// Writes the address of the listing that the filter selects.
    pub fn build(&self) -> (url: String)
        ensures
            url@ == self@.url(),
    {
        let path = render_language_path(&self.pro_lang);
        let query = match &self.since {
            Some(span) => concat("?since=", span.to_str()),
            None => String::new(),
        };
        let root = concat(GITHUB_TRENDING_URL, "/developers");
        let head = concat(root.as_str(), path.as_str());
        concat(head.as_str(), query.as_str())
    }

    /// Turns what the fetch of the listing returned into records: a page that came is
    /// read, one record for every row of it and none for a page without rows; a failure of
    /// the fetch is handed on as it is. A page that is too large to be parsed, by its bytes
    /// or by its tags, is not read: it gives the failure `Others` with the text
    /// `PAGE_TOO_LARGE`.
    pub fn get_data(&self, fetched: Result<String, Error>) -> (out: Result<Vec<Developer>, Error>)
        ensures
            out is Ok <==> fetched is Ok && parsable(fetched->Ok_0@),
            out is Ok ==> out->Ok_0.deep_view() == developers_of(fetched->Ok_0@),
            out is Ok ==> out->Ok_0.len() == developer_rows_of(fetched->Ok_0@).len(),
            fetched is Err ==> out->Err_0 == fetched->Err_0,
            fetched is Ok && !parsable(fetched->Ok_0@) ==> out->Err_0@ == ErrorView::Others(
                PAGE_TOO_LARGE@,
            ),
    {
        match fetched {
            Ok(html) => {
                if is_parsable(html.as_str()) {
                    Ok(select_data(html.as_str()))
                } else {
                    Err(Error::Others(String::from_str(PAGE_TOO_LARGE)))
                }
            },
            Err(failure) => Err(failure),
        }
    }
}

/// A filter with nothing set.
pub fn builder() -> (b: Builder)
    ensures
        b@ == BuilderView::unset(),
{
    Builder { pro_lang: None, since: None }
}

/// A filter with nothing set selects the bare listing: no path is added after
/// `/developers`, and no query.
pub proof fn law_unset_filter_adds_nothing()
    ensures
        BuilderView::unset().url() == GITHUB_TRENDING_URL@ + "/developers"@,
{
    assert(BuilderView::unset().url() =~= GITHUB_TRENDING_URL@ + "/developers"@);
}

/// A name that matches an entry of the table of programming languages, whatever the case
/// of its letters, is rendered by the address form of an entry: of the first entry that it
/// matches. The case in which the name was given changes nothing: a second name that is
/// the same in lower case gives the same address.
pub proof fn law_known_language_renders_its_slug(
    filter: BuilderView,
    name: Seq<char>,
    other_casing: Seq<char>,
    k: int,
)
    requires
        0 <= k < language_table().len(),
        ByView::Both(name).is_match(language_table()[k]),
        lowercase_of(other_casing) == lowercase_of(name),
    ensures
        first_match(language_table(), ByView::Both(name)) is Some,
        first_match(language_table(), ByView::Both(name))->0 <= k,
        ByView::Both(name).is_match(found_in(language_table(), ByView::Both(name))->0),
        filter.with_programming_language(name).url() == GITHUB_TRENDING_URL@ + "/developers"@
            + "/"@ + found_in(language_table(), ByView::Both(name))->0.url_param + query_of(
            filter.since,
        ),
        filter.with_programming_language(other_casing).url() == filter.with_programming_language(
            name,
        ).url(),
{
    lemma_first_match(language_table(), ByView::Both(name));
}

/// A name that matches no entry of the table of programming languages is rendered as it
/// was given, letter for letter.
pub proof fn law_unknown_language_passes_through(filter: BuilderView, name: Seq<char>)
    requires
        forall|k: int|
            0 <= k < language_table().len() ==> !ByView::Both(name).is_match(
                #[trigger] language_table()[k],
            ),
    ensures
        filter.with_programming_language(name).url() == GITHUB_TRENDING_URL@ + "/developers"@
            + "/"@ + name + query_of(filter.since),
{
    lemma_first_match(language_table(), ByView::Both(name));
}

/// A page without rows gives no record: an empty listing, which is no failure.
pub proof fn law_page_without_rows(html: Seq<char>)
    requires
        developer_rows_of(html).len() == 0,
    ensures
        developers_of(html) == Seq::<DeveloperView>::empty(),
{
    assert(developers_of(html) =~= Seq::<DeveloperView>::empty());
}

/// A row without a heading link gives a record without user name and addresses, and it
/// stops nothing: the listing still gives one record for each of its rows, in page order,
/// each made from its own row alone.
pub proof fn law_row_without_heading_link(html: Seq<char>, i: int)
    requires
        0 <= i < developer_rows_of(html).len(),
        developer_rows_of(html)[i].heading_href is None,
    ensures
        developers_of(html).len() == developer_rows_of(html).len(),
        developers_of(html)[i].username is None,
        developers_of(html)[i].url is None,
        developers_of(html)[i].repo is Some ==> developers_of(html)[i].repo->0.url is None,
        forall|j: int|
            0 <= j < developer_rows_of(html).len() ==> #[trigger] developers_of(html)[j]
                == developer_of(developer_rows_of(html)[j]),
{
}

} // verus!
