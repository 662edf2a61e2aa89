//! Colour themes: the ANSI sequences each theme writes for each colour.
use vstd::prelude::*;

verus! {

/// `str::to_lowercase`: the lowercase mapping of the Unicode character
/// database (where a char may become several, and a capital sigma at the
/// end of a word becomes a final sigma).
pub uninterp spec fn lowercase(s: Seq<char>) -> Seq<char>;

/// Every char is ASCII.
pub open spec fn is_ascii_text(s: Seq<char>) -> bool {
    forall|i: int| 0 <= i < s.len() ==> (s[i] as int) < 128
}

/// An ASCII letter `A`..`Z` made lowercase; any other char kept.
pub open spec fn ascii_lower_char(c: char) -> char {
    if 'A' <= c && c <= 'Z' {
        ((c as int) + 32) as char
    } else {
        c
    }
}

pub open spec fn ascii_lower(s: Seq<char>) -> Seq<char> {
    s.map_values(|c: char| ascii_lower_char(c))
}

/// Calls `str::to_lowercase`; the result is named `lowercase` of the input.
/// On ASCII text, where the Unicode mapping only turns `A`..`Z` into
/// `a`..`z`, that is stated.
#[verifier::external_body]
pub(crate) fn to_lowercase(s: &str) -> (r: String)
    ensures
        r@ == lowercase(s@),
        is_ascii_text(s@) ==> r@ == ascii_lower(s@),
{
    s.to_lowercase()
}

/// The colour themes. `Plain` writes no escape sequences at all; it is the
/// theme named "none".
#[derive(Debug, Clone, Copy, PartialEq, Eq, Structural)]
pub enum Theme {
    Amoled,
    Classic,
    Mono,
    Plain,
}

/// The theme a lowercase theme name selects; unknown names select `Amoled`.
pub open spec fn theme_named(s: Seq<char>) -> Theme {
    if s == "classic"@ {
        Theme::Classic
    } else if s == "mono"@ {
        Theme::Mono
    } else if s == "none"@ {
        Theme::Plain
    } else {
        Theme::Amoled
    }
}

pub open spec fn red_code(t: Theme) -> Seq<char> {
    match t {
        Theme::Amoled => "\x1b[1;91m"@,
        Theme::Classic => "\x1b[0;31m"@,
        _ => ""@,
    }
}

pub open spec fn green_code(t: Theme) -> Seq<char> {
    match t {
        Theme::Amoled => "\x1b[1;92m"@,
        Theme::Classic => "\x1b[0;32m"@,
        _ => ""@,
    }
}

pub open spec fn yellow_code(t: Theme) -> Seq<char> {
    match t {
        Theme::Amoled => "\x1b[1;93m"@,
        Theme::Classic => "\x1b[1;33m"@,
        _ => ""@,
    }
}

pub open spec fn blue_code(t: Theme) -> Seq<char> {
    match t {
        Theme::Amoled => "\x1b[1;94m"@,
        Theme::Classic => "\x1b[0;34m"@,
        _ => ""@,
    }
}

pub open spec fn cyan_code(t: Theme) -> Seq<char> {
    match t {
        Theme::Amoled => "\x1b[1;96m"@,
        Theme::Classic => "\x1b[0;36m"@,
        _ => ""@,
    }
}

pub open spec fn magenta_code(t: Theme) -> Seq<char> {
    match t {
        Theme::Amoled => "\x1b[1;95m"@,
        Theme::Classic => "\x1b[0;35m"@,
        _ => ""@,
    }
}

pub open spec fn dim_code(t: Theme) -> Seq<char> {
    match t {
        Theme::Plain => ""@,
        _ => "\x1b[2m"@,
    }
}

pub open spec fn bold_code(t: Theme) -> Seq<char> {
    match t {
        Theme::Plain => ""@,
        _ => "\x1b[1m"@,
    }
}

pub open spec fn reset_code(t: Theme) -> Seq<char> {
    match t {
        Theme::Plain => ""@,
        _ => "\x1b[0m"@,
    }
}

impl Theme {
    /// The theme of a name that is already lowercase.
    pub fn from_lowercase(s: &str) -> (t: Theme)
        ensures
            t == theme_named(s@),
    {
        if crate::text::str_eq(s, "classic") {
            Theme::Classic
        } else if crate::text::str_eq(s, "mono") {
            Theme::Mono
        } else if crate::text::str_eq(s, "none") {
            Theme::Plain
        } else {
            Theme::Amoled
        }
    }

    /// The theme a name selects, case-insensitively: for an ASCII name,
    /// the theme of the name with `A`..`Z` made lowercase.
    pub fn from_str(s: &str) -> (t: Theme)
        ensures
            t == theme_named(lowercase(s@)),
            is_ascii_text(s@) ==> t == theme_named(ascii_lower(s@)),
    {
        let low = to_lowercase(s);
        Theme::from_lowercase(low.as_str())
    }

    pub fn red(&self) -> (r: &'static str)
        ensures
            r@ == red_code(*self),
    {
        match self {
            Theme::Amoled => "\x1b[1;91m",
            Theme::Classic => "\x1b[0;31m",
            Theme::Mono | Theme::Plain => "",
        }
    }

    pub fn green(&self) -> (r: &'static str)
        ensures
            r@ == green_code(*self),
    {
        match self {
            Theme::Amoled => "\x1b[1;92m",
            Theme::Classic => "\x1b[0;32m",
            Theme::Mono | Theme::Plain => "",
        }
    }

    pub fn yellow(&self) -> (r: &'static str)
        ensures
            r@ == yellow_code(*self),
    {
        match self {
            Theme::Amoled => "\x1b[1;93m",
            Theme::Classic => "\x1b[1;33m",
            Theme::Mono | Theme::Plain => "",
        }
    }

    pub fn blue(&self) -> (r: &'static str)
        ensures
            r@ == blue_code(*self),
    {
        match self {
            Theme::Amoled => "\x1b[1;94m",
            Theme::Classic => "\x1b[0;34m",
            Theme::Mono | Theme::Plain => "",
        }
    }

    pub fn cyan(&self) -> (r: &'static str)
        ensures
            r@ == cyan_code(*self),
    {
        match self {
            Theme::Amoled => "\x1b[1;96m",
            Theme::Classic => "\x1b[0;36m",
            Theme::Mono | Theme::Plain => "",
        }
    }

    pub fn magenta(&self) -> (r: &'static str)
        ensures
            r@ == magenta_code(*self),
    {
        match self {
            Theme::Amoled => "\x1b[1;95m",
            Theme::Classic => "\x1b[0;35m",
            Theme::Mono | Theme::Plain => "",
        }
    }

    pub fn dim(&self) -> (r: &'static str)
        ensures
            r@ == dim_code(*self),
    {
        match self {
            Theme::Plain => "",
            _ => "\x1b[2m",
        }
    }

    pub fn bold(&self) -> (r: &'static str)
        ensures
            r@ == bold_code(*self),
    {
        match self {
            Theme::Plain => "",
            _ => "\x1b[1m",
        }
    }

    pub fn reset(&self) -> (r: &'static str)
        ensures
            r@ == reset_code(*self),
    {
        match self {
            Theme::Plain => "",
            _ => "\x1b[0m",
        }
    }
}

} // verus!
