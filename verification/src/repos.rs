//! The trending repositories listing: its records, the rules that turn one listing row
//! into a record, and the filter that names the page to read.

use crate::markup::{
    attr, attr_of, find_attr_in, find_class, find_class_in, find_name_in, inner_of_attr,
    inner_of_class, inner_of_name, is_parsable, nodes_of_class, parsable, text, text_of_node,
    Page,
};
use crate::probe::{
    class_attr, class_attr_of, class_text, class_text_of, first_hit, first_of, link_target,
    link_target_of, name_text, name_text_of,
};
use crate::text::{
    after_prefix, before_first, concat, escape, last_segment, nth_segment, parse_u32, parsed_u32,
    remove_char, segment, split_words, squeezed, strip_prefix, take_before, trailing_segment,
    without, words, Spacing,
};
use crate::error::{Error, ErrorView, PAGE_TOO_LARGE};
use crate::languages::language_table;
use crate::spoken_languages::spoken_language_table;
use crate::{
    first_match, found_in, language_path, lemma_first_match, lowercase_of, profile_of,
    profile_url, render_language_path, slug_for, ByView, Language, Since, GITHUB_TRENDING_URL,
};
use vstd::prelude::*;

verus! {

/// A contributor shown in a row of the listing.
#[derive(Debug, Clone, PartialEq, Eq)]
pub struct BuiltBy {
    pub username: Option<String>,
    pub href: Option<String>,
    pub avatar: Option<String>,
}

/// What a `BuiltBy` holds.
pub struct BuiltByView {
    pub username: Option<Seq<char>>,
    pub href: Option<Seq<char>>,
    pub avatar: Option<Seq<char>>,
}

impl View for BuiltBy {
    type V = BuiltByView;

    open spec fn view(&self) -> BuiltByView {
        BuiltByView {
            username: self.username.deep_view(),
            href: self.href.deep_view(),
            avatar: self.avatar.deep_view(),
        }
    }
}

impl DeepView for BuiltBy {
    type V = BuiltByView;

    open spec fn deep_view(&self) -> BuiltByView {
        self@
    }
}

/// One trending repository.
#[derive(Debug, Clone, PartialEq, Eq)]
pub struct Repository {
    pub avatar: Option<String>,
    pub author: Option<String>,
    pub name: Option<String>,
    pub current_star: Option<u32>,
    pub description: Option<String>,
    pub programming_language: Option<String>,
    pub url: Option<String>,
    pub stars: Option<u32>,
    pub forks: Option<u32>,
    pub lang_color: Option<String>,
    pub built_by: Vec<BuiltBy>,
}

/// What a `Repository` holds.
pub struct RepositoryView {
    pub avatar: Option<Seq<char>>,
    pub author: Option<Seq<char>>,
    pub name: Option<Seq<char>>,
    pub current_star: Option<u32>,
    pub description: Option<Seq<char>>,
    pub programming_language: Option<Seq<char>>,
    pub url: Option<Seq<char>>,
    pub stars: Option<u32>,
    pub forks: Option<u32>,
    pub lang_color: Option<Seq<char>>,
    pub built_by: Seq<BuiltByView>,
}

impl BuiltByView {
    /// The profile address is there exactly when the user name is.
    pub open spec fn wf(self) -> bool {
        self.href is Some <==> self.username is Some
    }
}

impl RepositoryView {
    /// The address is there exactly when author and name both are, the avatar exactly
    /// when the author is, and every contributor is well formed.
    pub open spec fn wf(self) -> bool {
        &&& self.url is Some <==> self.author is Some && self.name is Some
        &&& self.avatar is Some <==> self.author is Some
        &&& forall|i: int| 0 <= i < self.built_by.len() ==> (#[trigger] self.built_by[i]).wf()
    }
}

impl View for Repository {
    type V = RepositoryView;

    open spec fn view(&self) -> RepositoryView {
        RepositoryView {
            avatar: self.avatar.deep_view(),
            author: self.author.deep_view(),
            name: self.name.deep_view(),
            current_star: self.current_star,
            description: self.description.deep_view(),
            programming_language: self.programming_language.deep_view(),
            url: self.url.deep_view(),
            stars: self.stars,
            forks: self.forks,
            lang_color: self.lang_color.deep_view(),
            built_by: self.built_by.deep_view(),
        }
    }
}

impl DeepView for Repository {
    type V = RepositoryView;

    open spec fn deep_view(&self) -> RepositoryView {
        self@
    }
}

/// The `alt` and `src` attributes of one contributor image, as they stand in the markup.
#[derive(Debug, Clone, PartialEq, Eq)]
pub struct AvatarTag {
    pub alt: Option<String>,
    pub src: Option<String>,
}

/// What an `AvatarTag` holds.
pub struct AvatarTagView {
    pub alt: Option<Seq<char>>,
    pub src: Option<Seq<char>>,
}

impl View for AvatarTag {
    type V = AvatarTagView;

    open spec fn view(&self) -> AvatarTagView {
        AvatarTagView { alt: self.alt.deep_view(), src: self.src.deep_view() }
    }
}

impl DeepView for AvatarTag {
    type V = AvatarTagView;

    open spec fn deep_view(&self) -> AvatarTagView {
        self@
    }
}

/// One row of the repositories listing as it stands in the markup: the texts and
/// attributes that the rules read, before any rule is applied. A field is absent where
/// the row has no such element or attribute.
#[derive(Debug, Clone, PartialEq, Eq)]
pub struct RepoRow {
    /// Link target of the heading.
    pub heading_href: Option<String>,
    /// Text of the badge with the stars gained in the current window.
    pub star_badge: Option<String>,
    /// Text of the element that names the programming language.
    pub language: Option<String>,
    /// Text of the description paragraph.
    pub description: Option<String>,
    /// Texts of the muted links, in page order: total stars, then forks.
    pub counts: Vec<String>,
    /// `style` attribute of the language colour swatch.
    pub color_style: Option<String>,
    /// The contributor images, in page order.
    pub avatars: Vec<AvatarTag>,
}

/// What a `RepoRow` holds.
pub struct RepoRowView {
    pub heading_href: Option<Seq<char>>,
    pub star_badge: Option<Seq<char>>,
    pub language: Option<Seq<char>>,
    pub description: Option<Seq<char>>,
    pub counts: Seq<Seq<char>>,
    pub color_style: Option<Seq<char>>,
    pub avatars: Seq<AvatarTagView>,
}

impl View for RepoRow {
    type V = RepoRowView;

    open spec fn view(&self) -> RepoRowView {
        RepoRowView {
            heading_href: self.heading_href.deep_view(),
            star_badge: self.star_badge.deep_view(),
            language: self.language.deep_view(),
            description: self.description.deep_view(),
            counts: self.counts.deep_view(),
            color_style: self.color_style.deep_view(),
            avatars: self.avatars.deep_view(),
        }
    }
}

impl DeepView for RepoRow {
    type V = RepoRowView;

    open spec fn deep_view(&self) -> RepoRowView {
        self@
    }
}

/// The number that a counter text writes once its thousands separators are taken out.
pub open spec fn count_of(t: Seq<char>) -> Option<u32> {
    parsed_u32(without(squeezed(t), ','))
}

/// The number that the first word of a badge text writes once its thousands separators
/// are taken out; absent where the text has no word.
pub open spec fn leading_count(t: Seq<char>) -> Option<u32> {
    let ws = words(t, Spacing::Unicode);
    if ws.len() > 0 {
        parsed_u32(without(ws[0], ','))
    } else {
        None
    }
}

/// The contributor that an image tag shows: the name is what follows the last `@` of the
/// `alt` text, the avatar is the `src` address up to its first `?`, and the profile
/// address derives from the name.
pub open spec fn built_by_of(tag: AvatarTagView) -> BuiltByView {
    let username = match tag.alt {
        Some(alt) => trailing_segment(alt, '@'),
        None => None,
    };
    BuiltByView {
        username,
        href: match username {
            Some(user) => Some(profile_of(user)),
            None => None,
        },
        avatar: match tag.src {
            Some(src) => Some(before_first(src, '?')),
            None => None,
        },
    }
}

/// The record that a row of the listing stands for.
pub open spec fn repository_of(row: RepoRowView) -> RepositoryView {
    let author = match row.heading_href {
        Some(href) => segment(href, '/', 1),
        None => None,
    };
    let name = match row.heading_href {
        Some(href) => segment(href, '/', 2),
        None => None,
    };
    RepositoryView {
        avatar: match author {
            Some(a) => Some(profile_of(a) + ".png"@),
            None => None,
        },
        author,
        name,
        current_star: match row.star_badge {
            Some(badge) => leading_count(badge),
            None => None,
        },
        description: match row.description {
            Some(d) => Some(squeezed(d)),
            None => None,
        },
        programming_language: match row.language {
            Some(l) => Some(squeezed(l)),
            None => None,
        },
        url: match (author, name) {
            (Some(a), Some(n)) => Some(profile_of(a) + "/"@ + n),
            _ => None,
        },
        stars: if row.counts.len() > 0 {
            count_of(row.counts[0])
        } else {
            None
        },
        forks: if row.counts.len() > 1 {
            count_of(row.counts[1])
        } else {
            None
        },
        lang_color: match row.color_style {
            Some(style) => Some(after_prefix(style, "background-color: "@)),
            None => None,
        },
        built_by: row.avatars.map_values(|tag: AvatarTagView| built_by_of(tag)),
    }
}

/// Reads a counter text such as `1,234`.
pub fn parse_count(t: &str) -> (n: Option<u32>)
    ensures
        n == count_of(t@),
{
    let clean = escape(t);
    let digits = remove_char(clean.as_str(), ',');
    parse_u32(digits.as_str())
}

/// Reads the number that leads a badge text such as `1,234 stars today`.
pub fn parse_leading_count(t: &str) -> (n: Option<u32>)
    ensures
        n == leading_count(t@),
{
    let ws = split_words(t, Spacing::Unicode);
    if ws.len() > 0 {
        assert(ws.deep_view()[0] == ws[0]@);
        let digits = remove_char(ws[0].as_str(), ',');
        parse_u32(digits.as_str())
    } else {
        None
    }
}

impl BuiltBy {
    /// The contributor that an image tag shows.
    pub fn from_tag(tag: &AvatarTag) -> (shown: BuiltBy)
        ensures
            shown@ == built_by_of(tag@),
            shown@.wf(),
    {
        let username = match &tag.alt {
            Some(alt) => last_segment(alt.as_str(), '@'),
            None => None,
        };
        let href = match &username {
            Some(user) => Some(profile_url(user.as_str())),
            None => None,
        };
        let avatar = match &tag.src {
            Some(src) => Some(take_before(src.as_str(), '?')),
            None => None,
        };
        BuiltBy { username, href, avatar }
    }
}

impl Repository {
    /// Applies the extraction rules to one row of the listing.
    pub fn from_row(row: &RepoRow) -> (record: Repository)
        ensures
            record@ == repository_of(row@),
            record@.wf(),
    {
        let author = match &row.heading_href {
            Some(href) => nth_segment(href.as_str(), '/', 1),
            None => None,
        };
        let name = match &row.heading_href {
            Some(href) => nth_segment(href.as_str(), '/', 2),
            None => None,
        };
        let avatar = match &author {
            Some(a) => {
                let profile = profile_url(a.as_str());
                Some(concat(profile.as_str(), ".png"))
            },
            None => None,
        };
        let url = match (&author, &name) {
            (Some(a), Some(n)) => {
                let profile = profile_url(a.as_str());
                let folder = concat(profile.as_str(), "/");
                Some(concat(folder.as_str(), n.as_str()))
            },
            _ => None,
        };
        let current_star = match &row.star_badge {
            Some(badge) => parse_leading_count(badge.as_str()),
            None => None,
        };
        let description = match &row.description {
            Some(d) => Some(escape(d.as_str())),
            None => None,
        };
        let programming_language = match &row.language {
            Some(l) => Some(escape(l.as_str())),
            None => None,
        };
        let stars = if row.counts.len() > 0 {
            assert(row.counts.deep_view()[0] == row.counts[0]@);
            parse_count(row.counts[0].as_str())
        } else {
            None
        };
        let forks = if row.counts.len() > 1 {
            assert(row.counts.deep_view()[1] == row.counts[1]@);
            parse_count(row.counts[1].as_str())
        } else {
            None
        };
        let lang_color = match &row.color_style {
            Some(style) => Some(strip_prefix(style.as_str(), "background-color: ")),
            None => None,
        };
        let mut built_by: Vec<BuiltBy> = Vec::new();
        let mut k: usize = 0;
        while k < row.avatars.len()
            invariant
                0 <= k <= row.avatars.len(),
                built_by.len() == k,
                forall|j: int| 0 <= j < k ==> built_by[j]@ == built_by_of(row.avatars[j]@),
            decreases row.avatars.len() - k,
        {
            built_by.push(BuiltBy::from_tag(&row.avatars[k]));
            k += 1;
        }
        assert(built_by.deep_view() =~= row@.avatars.map_values(
            |tag: AvatarTagView| built_by_of(tag),
        ));
        Repository {
            avatar,
            author,
            name,
            current_star,
            description,
            programming_language,
            url,
            stars,
            forks,
            lang_color,
            built_by,
        }
    }
}

/// The image tag at node `node` of the page parsed from `html`.
pub open spec fn avatar_tag_of(html: Seq<char>, node: usize) -> AvatarTagView {
    AvatarTagView { alt: attr_of(html, node, "alt"@), src: attr_of(html, node, "src"@) }
}

/// What the row at node `row` of the page parsed from `html` holds.
pub open spec fn repo_row_of(html: Seq<char>, row: usize) -> RepoRowView {
    RepoRowView {
        heading_href: match first_of(inner_of_name(html, row, "h2"@)) {
            Some(heading) => link_target_of(html, heading),
            None => None,
        },
        star_badge: class_text_of(html, row, "float-sm-right"@),
        language: match first_of(inner_of_attr(html, row, "itemprop"@, "programmingLanguage"@)) {
            Some(hit) => Some(text_of_node(html, hit)),
            None => None,
        },
        description: name_text_of(html, row, "p"@),
        counts: inner_of_class(html, row, "Link--muted"@).map_values(
            |hit: usize| text_of_node(html, hit),
        ),
        color_style: class_attr_of(html, row, "repo-language-color"@, "style"@),
        avatars: inner_of_class(html, row, "avatar-user"@).map_values(
            |hit: usize| avatar_tag_of(html, hit),
        ),
    }
}

/// The rows of the listing in the markup `html`, in page order: one for every element
/// whose class list holds `Box-row`.
pub open spec fn repo_rows_of(html: Seq<char>) -> Seq<RepoRowView> {
    nodes_of_class(html, "Box-row"@).map_values(|row: usize| repo_row_of(html, row))
}

/// The records of the listing in the markup `html`, one for every row, in page order.
pub open spec fn repositories_of(html: Seq<char>) -> Seq<RepositoryView> {
    repo_rows_of(html).map_values(|row: RepoRowView| repository_of(row))
}

/// Reads the row at node `row` of `page`.
pub(crate) fn read_row(page: &Page, row: usize) -> (out: RepoRow)
    requires
        page.wf(),
    ensures
        out@ == repo_row_of(page@, row),
{
    let headings = find_name_in(page, row, "h2");
    let heading_href = match first_hit(&headings) {
        Some(heading) => link_target(page, heading),
        None => None,
    };
    let star_badge = class_text(page, row, "float-sm-right");
    let tagged = find_attr_in(page, row, "itemprop", "programmingLanguage");
    let language = match first_hit(&tagged) {
        Some(hit) => Some(text(page, hit)),
        None => None,
    };
    let description = name_text(page, row, "p");
    let muted = find_class_in(page, row, "Link--muted");
    let mut counts: Vec<String> = Vec::new();
    let mut i: usize = 0;
    while i < muted.len()
        invariant
            0 <= i <= muted.len(),
            page.wf(),
            counts.len() == i,
            forall|j: int| 0 <= j < i ==> counts[j]@ == text_of_node(page@, muted[j]),
        decreases muted.len() - i,
    {
        counts.push(text(page, muted[i]));
        i += 1;
    }
    let color_style = class_attr(page, row, "repo-language-color", "style");
    let images = find_class_in(page, row, "avatar-user");
    let mut avatars: Vec<AvatarTag> = Vec::new();
    let mut k: usize = 0;
    while k < images.len()
        invariant
            0 <= k <= images.len(),
            page.wf(),
            avatars.len() == k,
            forall|j: int| 0 <= j < k ==> avatars[j]@ == avatar_tag_of(page@, images[j]),
        decreases images.len() - k,
    {
        let alt = attr(page, images[k], "alt");
        let src = attr(page, images[k], "src");
        avatars.push(AvatarTag { alt, src });
        k += 1;
    }
    let out = RepoRow {
        heading_href,
        star_badge,
        language,
        description,
        counts,
        color_style,
        avatars,
    };
    proof {
        assert(out@.counts =~= repo_row_of(page@, row).counts);
        assert(out@.avatars =~= repo_row_of(page@, row).avatars);
    }
    out
}

/// Reads every row of the listing out of the markup `html`, in page order. The markup is
/// small enough to be parsed; `is_parsable` tells.
pub fn read_rows(html: &str) -> (rows: Vec<RepoRow>)
    requires
        parsable(html@),
    ensures
        rows.deep_view() == repo_rows_of(html@),
        rows.len() == repo_rows_of(html@).len(),
{
    let page = Page::parse(html);
    let nodes = find_class(&page, "Box-row");
    let mut rows: Vec<RepoRow> = Vec::new();
    let mut i: usize = 0;
    while i < nodes.len()
        invariant
            0 <= i <= nodes.len(),
            page.wf(),
            page@ == html@,
            nodes@ == nodes_of_class(html@, "Box-row"@),
            rows.len() == i,
            forall|j: int| 0 <= j < i ==> rows[j]@ == repo_row_of(html@, nodes[j]),
        decreases nodes.len() - i,
    {
        rows.push(read_row(&page, nodes[i]));
        i += 1;
    }
    assert(rows.deep_view() =~= repo_rows_of(html@));
    rows
}

/// Extracts the records of the listing from the markup `html`: one record for every row,
/// in page order, whatever the row holds. The markup is small enough to be parsed;
/// `is_parsable` tells.
pub fn select_data(html: &str) -> (records: Vec<Repository>)
    requires
        parsable(html@),
    ensures
        records.deep_view() == repositories_of(html@),
        records.len() == repo_rows_of(html@).len(),
        forall|i: int| 0 <= i < records.len() ==> (#[trigger] records[i])@.wf(),
{
    let rows = read_rows(html);
    let mut records: Vec<Repository> = Vec::new();
    let mut i: usize = 0;
    while i < rows.len()
        invariant
            0 <= i <= rows.len(),
            records.len() == i,
            forall|j: int| 0 <= j < i ==> records[j]@ == repository_of(rows[j]@),
            forall|j: int| 0 <= j < i ==> (#[trigger] records[j])@.wf(),
        decreases rows.len() - i,
    {
        records.push(Repository::from_row(&rows[i]));
        i += 1;
    }
    assert(records.deep_view() =~= rows.deep_view().map_values(
        |row: RepoRowView| repository_of(row),
    ));
    records
}

/// The filter of a repositories listing: each part is set or left open.
#[derive(Debug, Clone, PartialEq, Eq)]
pub struct Builder {
    pro_lang: Option<String>,
    spoken_lang: Option<String>,
    since: Option<Since>,
}

/// What a `Builder` holds: the programming language and the spoken language in the form
/// in which they stand in an address, and the span of time.
pub struct BuilderView {
    pub pro_lang: Option<Seq<char>>,
    pub spoken_lang: Option<Seq<char>>,
    pub since: Option<Since>,
}

/// The query of a repositories address: the span first, then the spoken language, each
/// only where it is set, and nothing at all where neither is.
pub open spec fn query_of(since: Option<Since>, spoken_lang: Option<Seq<char>>) -> Seq<char> {
    match (since, spoken_lang) {
        (Some(span), Some(code)) => "?since="@ + span.text() + "&spoken_language_code="@ + code,
        (Some(span), None) => "?since="@ + span.text(),
        (None, Some(code)) => "?spoken_language_code="@ + code,
        (None, None) => Seq::empty(),
    }
}

impl BuilderView {
    /// The filter with nothing set.
    pub open spec fn unset() -> BuilderView {
        BuilderView { pro_lang: None, spoken_lang: None, since: None }
    }

    /// The filter narrowed to the programming language called `name`.
    pub open spec fn with_programming_language(self, name: Seq<char>) -> BuilderView {
        BuilderView { pro_lang: Some(slug_for(language_table(), name)), ..self }
    }

    /// The filter narrowed to the spoken language called `name`.
    pub open spec fn with_spoken_language(self, name: Seq<char>) -> BuilderView {
        BuilderView { spoken_lang: Some(slug_for(spoken_language_table(), name)), ..self }
    }

    /// The filter narrowed to the span `since`.
    pub open spec fn with_since(self, since: Since) -> BuilderView {
        BuilderView { since: Some(since), ..self }
    }

    /// The address of the listing that the filter selects.
    pub open spec fn url(self) -> Seq<char> {
        GITHUB_TRENDING_URL@ + language_path(self.pro_lang) + query_of(
            self.since,
            self.spoken_lang,
        )
    }
}

impl View for Builder {
    type V = BuilderView;

    closed spec fn view(&self) -> BuilderView {
        BuilderView {
            pro_lang: self.pro_lang.deep_view(),
            spoken_lang: self.spoken_lang.deep_view(),
            since: self.since,
        }
    }
}

impl Builder {
    /// Narrows the listing to a programming language. A name that the table of
    /// programming languages knows, in whatever case, is replaced by the form in which
    /// that language stands in an address; any other name is kept as it is.
    pub fn programming_language(self, lang: &str) -> (out: Self)
        ensures
            out@ == self@.with_programming_language(lang@),
    {
        let table = crate::languages::get_data();
        let slug = Language::slug_in(&table, lang);
        Builder { pro_lang: Some(slug), spoken_lang: self.spoken_lang, since: self.since }
    }

    /// Narrows the listing to a span of time.
    pub fn since(self, since: Since) -> (out: Self)
        ensures
            out@ == self@.with_since(since),
    {
        Builder { pro_lang: self.pro_lang, spoken_lang: self.spoken_lang, since: Some(since) }
    }

    /// Narrows the listing to a spoken language. A name or code that the table of spoken
    /// languages knows, in whatever case, is replaced by the code of that language; any
    /// other text is kept as it is.
    pub fn spoken_language(self, s_lang: &str) -> (out: Self)
        ensures
            out@ == self@.with_spoken_language(s_lang@),
    {
        let table = crate::spoken_languages::get_data();
        let slug = Language::slug_in(&table, s_lang);
        Builder { pro_lang: self.pro_lang, spoken_lang: Some(slug), since: self.since }
    }

    /// Writes the address of the listing that the filter selects.
    pub fn build(&self) -> (url: String)
        ensures
            url@ == self@.url(),
    {
        let path = render_language_path(&self.pro_lang);
        let query = render_query(&self.since, &self.spoken_lang);
        let head = concat(GITHUB_TRENDING_URL, path.as_str());
        concat(head.as_str(), query.as_str())
    }

    /// Turns what the fetch of the listing returned into records: a page that came is
    /// read, one record for every row of it and none for a page without rows; a failure of
    /// the fetch is handed on as it is. A page that is too large to be parsed, by its bytes
    /// or by its tags, is not read: it gives the failure `Others` with the text
    /// `PAGE_TOO_LARGE`.
    pub fn get_data(&self, fetched: Result<String, Error>) -> (out: Result<Vec<Repository>, Error>)
        ensures
            out is Ok <==> fetched is Ok && parsable(fetched->Ok_0@),
            out is Ok ==> out->Ok_0.deep_view() == repositories_of(fetched->Ok_0@),
            out is Ok ==> out->Ok_0.len() == repo_rows_of(fetched->Ok_0@).len(),
            fetched is Err ==> out->Err_0 == fetched->Err_0,
            fetched is Ok && !parsable(fetched->Ok_0@) ==> out->Err_0@ == ErrorView::Others(
                PAGE_TOO_LARGE@,
            ),
    {
        match fetched {
            Ok(html) => {
                if is_parsable(html.as_str()) {
                    Ok(select_data(html.as_str()))
                } else {
                    Err(Error::Others(String::from_str(PAGE_TOO_LARGE)))
                }
            },
            Err(failure) => Err(failure),
        }
    }
}

/// Writes the query of a repositories address.
pub fn render_query(since: &Option<Since>, spoken_lang: &Option<String>) -> (query: String)
    ensures
        query@ == query_of(*since, spoken_lang.deep_view()),
{
    match (since, spoken_lang) {
        (Some(span), Some(code)) => {
            let a = concat("?since=", span.to_str());
            let b = concat(a.as_str(), "&spoken_language_code=");
            concat(b.as_str(), code.as_str())
        },
        (Some(span), None) => concat("?since=", span.to_str()),
        (None, Some(code)) => concat("?spoken_language_code=", code.as_str()),
        (None, None) => String::new(),
    }
}

/// A filter with nothing set.
pub fn builder() -> (b: Builder)
    ensures
        b@ == BuilderView::unset(),
{
    Builder { pro_lang: None, spoken_lang: None, since: None }
}

/// A filter with nothing set selects the bare listing: no path is added, and no query.
pub proof fn law_unset_filter_adds_nothing()
    ensures
        BuilderView::unset().url() == GITHUB_TRENDING_URL@,
{
    assert(BuilderView::unset().url() =~= GITHUB_TRENDING_URL@);
}

/// A name that matches an entry of the table of programming languages, whatever the case
/// of its letters, is rendered by the address form of an entry: of the first entry that it
/// matches. The case in which the name was given changes nothing: a second name that is
/// the same in lower case gives the same address.
pub proof fn law_known_language_renders_its_slug(
    filter: BuilderView,
    name: Seq<char>,
    other_casing: Seq<char>,
    k: int,
)
    requires
        0 <= k < language_table().len(),
        ByView::Both(name).is_match(language_table()[k]),
        lowercase_of(other_casing) == lowercase_of(name),
    ensures
        first_match(language_table(), ByView::Both(name)) is Some,
        first_match(language_table(), ByView::Both(name))->0 <= k,
        ByView::Both(name).is_match(found_in(language_table(), ByView::Both(name))->0),
        filter.with_programming_language(name).url() == GITHUB_TRENDING_URL@ + "/"@ + found_in(
            language_table(),
            ByView::Both(name),
        )->0.url_param + query_of(filter.since, filter.spoken_lang),
        filter.with_programming_language(other_casing).url() == filter.with_programming_language(
            name,
        ).url(),
{
    lemma_first_match(language_table(), ByView::Both(name));
}

/// A name that matches no entry of the table of programming languages is rendered as it
/// was given, letter for letter.
pub proof fn law_unknown_language_passes_through(filter: BuilderView, name: Seq<char>)
    requires
        forall|k: int|
            0 <= k < language_table().len() ==> !ByView::Both(name).is_match(
                #[trigger] language_table()[k],
            ),
    ensures
        filter.with_programming_language(name).url() == GITHUB_TRENDING_URL@ + "/"@ + name
            + query_of(filter.since, filter.spoken_lang),
{
    lemma_first_match(language_table(), ByView::Both(name));
}

/// A spoken language is rendered as a programming language is: a name or code that
/// matches an entry of the table of spoken languages, whatever the case of its letters, by
/// the code of the first entry that it matches, and any other text as it was given.
pub proof fn law_spoken_language_rendering(
    filter: BuilderView,
    name: Seq<char>,
    other_casing: Seq<char>,
)
    requires
        lowercase_of(other_casing) == lowercase_of(name),
    ensures
        first_match(spoken_language_table(), ByView::Both(name)) is Some
            ==> filter.with_spoken_language(name).spoken_lang == Some(
            spoken_language_table()[first_match(
                spoken_language_table(),
                ByView::Both(name),
            )->0].url_param,
        ),
        first_match(spoken_language_table(), ByView::Both(name)) is Some
            ==> filter.with_spoken_language(other_casing) == filter.with_spoken_language(name),
        first_match(spoken_language_table(), ByView::Both(name)) is None
            ==> filter.with_spoken_language(name).spoken_lang == Some(name),
{
}

/// A page without rows gives no record: an empty listing, which is no failure.
pub proof fn law_page_without_rows(html: Seq<char>)
    requires
        repo_rows_of(html).len() == 0,
    ensures
        repositories_of(html) == Seq::<RepositoryView>::empty(),
{
    assert(repositories_of(html) =~= Seq::<RepositoryView>::empty());
}

/// A row without a heading link gives a record without author, name, address and avatar,
/// and it stops nothing: the listing still gives one record for each of its rows, in page
/// order, each made from its own row alone.
pub proof fn law_row_without_heading_link(html: Seq<char>, i: int)
    requires
        0 <= i < repo_rows_of(html).len(),
        repo_rows_of(html)[i].heading_href is None,
    ensures
        repositories_of(html).len() == repo_rows_of(html).len(),
        repositories_of(html)[i].author is None,
        repositories_of(html)[i].name is None,
        repositories_of(html)[i].url is None,
        repositories_of(html)[i].avatar is None,
        forall|j: int|
            0 <= j < repo_rows_of(html).len() ==> #[trigger] repositories_of(html)[j]
                == repository_of(repo_rows_of(html)[j]),
{
}

} // verus!
