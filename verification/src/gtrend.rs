//! The span of time of a listing in its plain form: read from and written as an exact
//! lower-case word, with the day as the span of any other text.

use vstd::prelude::*;

verus! {

/// The span of time that a listing ranks over.
#[derive(PartialEq, Eq, Structural, Debug, Clone, Copy)]
pub enum Since {
    Daily,
    Weekly,
    Monthly,
}

impl Since {
    /// The word that stands for the span.
    pub open spec fn text(self) -> Seq<char> {
        match self {
            Since::Daily => "daily"@,
            Since::Weekly => "weekly"@,
            Since::Monthly => "monthly"@,
        }
    }

    /// The span that a text stands for: the week for `weekly`, the month for `monthly`,
    /// the day for `daily` and for every other text.
    pub open spec fn read(word: Seq<char>) -> Since {
        if word == "weekly"@ {
            Since::Weekly
        } else if word == "monthly"@ {
            Since::Monthly
        } else {
            Since::Daily
        }
    }

    /// The word that stands for the span.
    pub fn to_string(&self) -> (word: &'static str)
        ensures
            word@ == self.text(),
    {
        match self {
            Since::Daily => "daily",
            Since::Weekly => "weekly",
            Since::Monthly => "monthly",
        }
    }

    /// Reads a span from its word; any text that is no such word reads as the day.
    pub fn from_string(s: &str) -> (span: Since)
        ensures
            span == Since::read(s@),
    {
        if s.eq("weekly") {
            Since::Weekly
        } else if s.eq("monthly") {
            Since::Monthly
        } else {
            Since::Daily
        }
    }

    /// The word of a span read back gives the span.
    pub proof fn law_word_reads_back(self)
        ensures
            Since::read(self.text()) == self,
    {
        reveal_strlit("daily");
        reveal_strlit("weekly");
        reveal_strlit("monthly");
        assert("daily"@.len() == 5);
        assert("weekly"@.len() == 6);
        assert("monthly"@.len() == 7);
    }
}

} // verus!
