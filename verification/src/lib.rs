//! Reads the trending listings of GitHub: builds the address of a listing from a filter,
//! and turns the markup of a listing into records.

use crate::text::{concat, lowercase, lowercase_of};
use vstd::prelude::*;

pub mod developers;
pub mod error;
pub mod gtrend;
pub mod languages;
pub mod markup;
pub mod probe;
pub mod repos;
pub mod spoken_languages;
pub mod text;

verus! {

/// Root of every profile and repository address.
pub const GITHUB_BASE_URL: &'static str = "https://github.com";

/// Address of the trending repositories listing.
pub const GITHUB_TRENDING_URL: &'static str = "https://github.com/trending";

/// The address of the profile of `user`.
pub open spec fn profile_of(user: Seq<char>) -> Seq<char> {
    GITHUB_BASE_URL@ + "/"@ + user
}

/// The address of the profile of `user`.
pub fn profile_url(user: &str) -> (url: String)
    ensures
        url@ == profile_of(user@),
{
    let base = concat(GITHUB_BASE_URL, "/");
    concat(base.as_str(), user)
}

/// The span of time that a listing ranks over.
#[derive(PartialEq, Eq, Structural, Debug, Clone, Copy)]
pub enum Since {
    Daily,
    Weekly,
    Monthly,
}

impl Since {
    /// The word that stands for the span in an address.
    pub open spec fn text(self) -> Seq<char> {
        match self {
            Since::Daily => "daily"@,
            Since::Weekly => "weekly"@,
            Since::Monthly => "monthly"@,
        }
    }

    /// The span that a word stands for, letter for letter; absent for any other text.
    pub open spec fn named(word: Seq<char>) -> Option<Since> {
        if word == "daily"@ {
            Some(Since::Daily)
        } else if word == "weekly"@ {
            Some(Since::Weekly)
        } else if word == "monthly"@ {
            Some(Since::Monthly)
        } else {
            None
        }
    }

    /// The word that stands for the span in an address.
    pub fn to_str(&self) -> (word: &'static str)
        ensures
            word@ == self.text(),
    {
        match self {
            Since::Daily => "daily",
            Since::Weekly => "weekly",
            Since::Monthly => "monthly",
        }
    }

    /// The word that stands for the span in an address, as an owned text.
    pub fn to_string(&self) -> (word: String)
        ensures
            word@ == self.text(),
    {
        String::from_str(self.to_str())
    }

    /// Reads a span from its word in lower case; any other text names no span.
    pub fn from_lowercase(word: &str) -> (span: Option<Since>)
        ensures
            span == Since::named(word@),
    {
        if word.eq("daily") {
            Some(Since::Daily)
        } else if word.eq("weekly") {
            Some(Since::Weekly)
        } else if word.eq("monthly") {
            Some(Since::Monthly)
        } else {
            None
        }
    }

    /// Reads a span from its word, whatever the case of the letters; any other text names
    /// no span.
    pub fn from_str(s: &str) -> (span: Option<Since>)
        ensures
            span == Since::named(lowercase_of(s@)),
    {
        let low = lowercase(s);
        Since::from_lowercase(low.as_str())
    }

    /// Each span has a word of its own among `daily`, `weekly` and `monthly`, always the
    /// same one, and that word read back gives the span.
    pub proof fn law_rendering_is_stable(self)
        ensures
            self.text() == "daily"@ || self.text() == "weekly"@ || self.text() == "monthly"@,
            Since::named(self.text()) == Some(self),
    {
        reveal_strlit("daily");
        reveal_strlit("weekly");
        reveal_strlit("monthly");
        assert("daily"@.len() == 5);
        assert("weekly"@.len() == 6);
        assert("monthly"@.len() == 7);
    }
}

/// A language that a listing can be filtered by: the name it is shown under, and the form
/// of that name that stands in an address.
#[derive(Debug, Clone, PartialEq, Eq)]
pub struct Language {
    pub url_param: String,
    pub name: String,
}

/// What a `Language` holds.
pub struct LanguageView {
    pub url_param: Seq<char>,
    pub name: Seq<char>,
}

impl LanguageView {
    /// The entry with both of its texts in lower case.
    pub open spec fn folded(self) -> LanguageView {
        LanguageView { url_param: lowercase_of(self.url_param), name: lowercase_of(self.name) }
    }
}

impl View for Language {
    type V = LanguageView;

    open spec fn view(&self) -> LanguageView {
        LanguageView { url_param: self.url_param@, name: self.name@ }
    }
}

impl DeepView for Language {
    type V = LanguageView;

    open spec fn deep_view(&self) -> LanguageView {
        self@
    }
}

/// What to look a language up by.
pub enum By<'a> {
    /// Its displayed name.
    Name(&'a str),
    /// Its form in an address.
    UrlParam(&'a str),
    /// Either of the two.
    Both(&'a str),
}

/// What a `By` holds.
pub enum ByView {
    Name(Seq<char>),
    UrlParam(Seq<char>),
    Both(Seq<char>),
}

impl ByView {
    /// Whether `entry` is what is looked for, letter for letter.
    pub open spec fn accepts(self, entry: LanguageView) -> bool {
        match self {
            ByView::Name(wanted) => entry.name == wanted,
            ByView::UrlParam(wanted) => entry.url_param == wanted,
            ByView::Both(wanted) => entry.url_param == wanted || entry.name == wanted,
        }
    }

    /// The same question asked of another text.
    pub open spec fn with_text(self, text: Seq<char>) -> ByView {
        match self {
            ByView::Name(_) => ByView::Name(text),
            ByView::UrlParam(_) => ByView::UrlParam(text),
            ByView::Both(_) => ByView::Both(text),
        }
    }

    /// The same question with its text in lower case.
    pub open spec fn folded(self) -> ByView {
        match self {
            ByView::Name(wanted) => ByView::Name(lowercase_of(wanted)),
            ByView::UrlParam(wanted) => ByView::UrlParam(lowercase_of(wanted)),
            ByView::Both(wanted) => ByView::Both(lowercase_of(wanted)),
        }
    }

    /// Whether `entry` is what is looked for, whatever the case of the letters.
    pub open spec fn is_match(self, entry: LanguageView) -> bool {
        self.folded().accepts(entry.folded())
    }
}

impl<'a> View for By<'a> {
    type V = ByView;

    open spec fn view(&self) -> ByView {
        match self {
            By::Name(wanted) => ByView::Name(wanted@),
            By::UrlParam(wanted) => ByView::UrlParam(wanted@),
            By::Both(wanted) => ByView::Both(wanted@),
        }
    }
}

/// Position of the first entry of `table` that `key` accepts, letter for letter; absent
/// where it accepts none.
pub open spec fn first_accepted(table: Seq<LanguageView>, key: ByView) -> Option<int>
    decreases table.len(),
{
    if table.len() == 0 {
        None
    } else if key.accepts(table[0]) {
        Some(0)
    } else {
        match first_accepted(table.drop_first(), key) {
            Some(i) => Some(i + 1),
            None => None,
        }
    }
}

/// The table with both texts of every entry in lower case.
pub open spec fn folded_table(table: Seq<LanguageView>) -> Seq<LanguageView> {
    table.map_values(|entry: LanguageView| entry.folded())
}

/// Position of the first entry of `table` that `key` matches, whatever the case of the
/// letters; absent where it matches none. It is the first entry that is accepted once the
/// table and the key are in lower case.
pub open spec fn first_match(table: Seq<LanguageView>, key: ByView) -> Option<int> {
    first_accepted(folded_table(table), key.folded())
}

/// The first entry of `table` that `key` matches, whatever the case of the letters.
pub open spec fn found_in(table: Seq<LanguageView>, key: ByView) -> Option<LanguageView> {
    match first_match(table, key) {
        Some(i) => Some(table[i]),
        None => None,
    }
}

/// The form in which the language called `name` stands in an address: the address form of
/// the first entry of `table` that `name` matches by either of its texts, whatever the
/// case of the letters; `name` itself, unchanged, where it matches none.
pub open spec fn slug_for(table: Seq<LanguageView>, name: Seq<char>) -> Seq<char> {
    match found_in(table, ByView::Both(name)) {
        Some(entry) => entry.url_param,
        None => name,
    }
}

/// The piece of an address that narrows a listing to a language: a slash and the language,
/// or nothing where no language is set.
pub open spec fn language_path(language: Option<Seq<char>>) -> Seq<char> {
    match language {
        Some(slug) => "/"@ + slug,
        None => Seq::empty(),
    }
}

/// `first_accepted` is the one position that is accepted and has no accepted position
/// before it; it is absent exactly where no position is accepted.
pub proof fn lemma_first_accepted(table: Seq<LanguageView>, key: ByView)
    ensures
        first_accepted(table, key) is Some ==> 0 <= first_accepted(table, key)->0 < table.len(),
        first_accepted(table, key) is Some ==> key.accepts(table[first_accepted(table, key)->0]),
        first_accepted(table, key) is Some ==> forall|j: int|
            0 <= j < first_accepted(table, key)->0 ==> !key.accepts(table[j]),
        first_accepted(table, key) is None ==> forall|j: int|
            0 <= j < table.len() ==> !key.accepts(table[j]),
    decreases table.len(),
{
    if table.len() > 0 && !key.accepts(table[0]) {
        let rest = table.drop_first();
        lemma_first_accepted(rest, key);
        match first_accepted(rest, key) {
            Some(i) => {
                assert forall|j: int| 0 <= j < i + 1 implies !key.accepts(table[j]) by {
                    if j > 0 {
                        assert(table[j] == rest[j - 1]);
                    }
                }
            },
            None => {
                assert forall|j: int| 0 <= j < table.len() implies !key.accepts(table[j]) by {
                    if j > 0 {
                        assert(table[j] == rest[j - 1]);
                    }
                }
            },
        }
    }
}

/// `first_match` is the one position that is matched and has no matched position before
/// it; it is absent exactly where no position is matched.
pub proof fn lemma_first_match(table: Seq<LanguageView>, key: ByView)
    ensures
        first_match(table, key) is Some ==> 0 <= first_match(table, key)->0 < table.len(),
        first_match(table, key) is Some ==> key.is_match(table[first_match(table, key)->0]),
        first_match(table, key) is Some ==> forall|j: int|
            0 <= j < first_match(table, key)->0 ==> !key.is_match(table[j]),
        first_match(table, key) is None ==> forall|j: int|
            0 <= j < table.len() ==> !key.is_match(table[j]),
{
    let low = folded_table(table);
    lemma_first_accepted(low, key.folded());
    assert forall|j: int| 0 <= j < table.len() implies key.is_match(table[j])
        == key.folded().accepts(low[j]) by {
        assert(low[j] == table[j].folded());
    }
}

/// Writes the piece of an address that narrows a listing to a language.
pub fn render_language_path(language: &Option<String>) -> (path: String)
    ensures
        path@ == language_path(language.deep_view()),
{
    match language {
        Some(slug) => concat("/", slug.as_str()),
        None => String::new(),
    }
}

impl<'a> By<'a> {
    /// Tells whether `entry` is what is looked for, letter for letter.
    pub fn accepts(&self, entry: &Language) -> (yes: bool)
        ensures
            yes == self@.accepts(entry@),
    {
        match self {
            By::Name(wanted) => entry.name.as_str().eq(*wanted),
            By::UrlParam(wanted) => entry.url_param.as_str().eq(*wanted),
            By::Both(wanted) => entry.url_param.as_str().eq(*wanted) || entry.name.as_str().eq(
                *wanted,
            ),
        }
    }

    /// Looks through `table` for the first entry that is accepted, letter for letter, and
    /// gives its position.
    pub fn position_in(&self, table: &Vec<Language>) -> (found: Option<usize>)
        ensures
            found is Some ==> first_accepted(table.deep_view(), self@) == Some(found->0 as int),
            found is Some ==> found->0 < table.len(),
            found is None ==> first_accepted(table.deep_view(), self@) is None,
    {
        let mut i: usize = 0;
        while i < table.len()
            invariant
                0 <= i <= table.len(),
                forall|j: int| 0 <= j < i ==> !self@.accepts(#[trigger] table.deep_view()[j]),
            decreases table.len() - i,
        {
            assert(table.deep_view()[i as int] == table[i as int]@);
            if self.accepts(&table[i]) {
                proof {
                    lemma_first_accepted(table.deep_view(), self@);
                }
                return Some(i);
            }
            i += 1;
        }
        proof {
            lemma_first_accepted(table.deep_view(), self@);
        }
        None
    }

    /// The same question asked of another text.
    pub fn with_text<'b>(&self, text: &'b str) -> (asked: By<'b>)
        ensures
            asked@ == self@.with_text(text@),
    {
        match self {
            By::Name(_) => By::Name(text),
            By::UrlParam(_) => By::UrlParam(text),
            By::Both(_) => By::Both(text),
        }
    }

    /// The text that is looked for, in lower case: the text of the same question once it
    /// is folded.
    pub fn lowered_text(&self) -> (low: String)
        ensures
            self@.folded() == self@.with_text(low@),
    {
        lowercase(self.wanted())
    }

    /// The text that is looked for.
    pub fn wanted(&self) -> (text: &'a str)
        ensures
            self@ == ByView::Name(text@) || self@ == ByView::UrlParam(text@) || self@
                == ByView::Both(text@),
    {
        match self {
            By::Name(wanted) => wanted,
            By::UrlParam(wanted) => wanted,
            By::Both(wanted) => wanted,
        }
    }
}

impl Language {
    /// The entry with both of its texts in lower case.
    pub fn folded(&self) -> (low: Language)
        ensures
            low@ == self@.folded(),
    {
        Language {
            url_param: lowercase(self.url_param.as_str()),
            name: lowercase(self.name.as_str()),
        }
    }

    /// Tells whether `key` matches this entry, whatever the case of the letters.
    pub fn is_match(&self, key: &By) -> (yes: bool)
        ensures
            yes == key@.is_match(self@),
    {
        let low = key.lowered_text();
        let entry = self.folded();
        key.with_text(low.as_str()).accepts(&entry)
    }

    /// The table with both texts of every entry in lower case.
    pub fn fold_all(table: &Vec<Language>) -> (low: Vec<Language>)
        ensures
            low.deep_view() == folded_table(table.deep_view()),
    {
        let mut low: Vec<Language> = Vec::new();
        let mut i: usize = 0;
        while i < table.len()
            invariant
                0 <= i <= table.len(),
                low.len() == i,
                forall|j: int| 0 <= j < i ==> low[j]@ == table[j]@.folded(),
            decreases table.len() - i,
        {
            low.push(table[i].folded());
            i += 1;
        }
        assert(low.deep_view() =~= folded_table(table.deep_view()));
        low
    }

    /// Looks up the first entry of `table` that `key` matches, whatever the case of the
    /// letters: the table and the key are put in lower case, and the entry is the one at
    /// the first position that is then accepted.
    pub fn find_in(table: &Vec<Language>, key: &By) -> (found: Option<Language>)
        ensures
            found.deep_view() == found_in(table.deep_view(), key@),
    {
        let low_table = Language::fold_all(table);
        let low = key.lowered_text();
        match key.with_text(low.as_str()).position_in(&low_table) {
            Some(i) => {
                assert(table.deep_view()[i as int] == table[i as int]@);
                Some(
                    Language { url_param: table[i].url_param.clone(), name: table[i].name.clone() },
                )
            },
            None => None,
        }
    }

    /// The form in which the language called `name` stands in an address, going by
    /// `table`.
    pub fn slug_in(table: &Vec<Language>, name: &str) -> (slug: String)
        ensures
            slug@ == slug_for(table.deep_view(), name@),
    {
        match Language::find_in(table, &By::Both(name)) {
            Some(entry) => entry.url_param,
            None => String::from_str(name),
        }
    }

    /// The table that `rows` writes down, one entry for each pair of address form and
    /// displayed name.
    pub open spec fn table_of(rows: Seq<(&'static str, &'static str)>) -> Seq<LanguageView> {
        rows.map_values(
            |row: (&'static str, &'static str)| LanguageView { url_param: row.0@, name: row.1@ },
        )
    }

    /// Builds the table that `rows` writes down.
    pub fn load(rows: &[(&'static str, &'static str)]) -> (table: Vec<Language>)
        ensures
            table.deep_view() == Language::table_of(rows@),
    {
        let mut table: Vec<Language> = Vec::new();
        let mut i: usize = 0;
        while i < rows.len()
            invariant
                0 <= i <= rows.len(),
                table.len() == i,
                forall|j: int|
                    0 <= j < i ==> table[j]@ == (LanguageView {
                        url_param: rows[j].0@,
                        name: rows[j].1@,
                    }),
            decreases rows.len() - i,
        {
            table.push(
                Language {
                    url_param: String::from_str(rows[i].0),
                    name: String::from_str(rows[i].1),
                },
            );
            i += 1;
        }
        assert(table.deep_view() =~= Language::table_of(rows@));
        table
    }
}

} // verus!
