//! The values that cross the service boundary: slugs, URLs, short links,
//! statistics and the error taxonomy.
//!
//! Every type that owns text has a view made of `Seq<char>`, and `==` on it
//! is proved to be equality of views.

use vstd::prelude::*;
use vstd::std_specs::cmp::PartialEqSpecImpl;

verus! {

/// All the ways a command or a query can be rejected.
#[derive(Debug, Clone, Copy, PartialEq, Eq, Structural)]
pub enum ShortenerError {
    /// The supplied URL is not a syntactically valid absolute URL.
    InvalidUrl,
    /// The requested (or generated) slug is already registered.
    SlugAlreadyInUse,
    /// No short link was ever created under the given slug.
    SlugNotFound,
}

/// A case-sensitive token that identifies one short link.
#[derive(Debug, Eq, PartialOrd, Ord, Hash)]
pub struct Slug(pub String);

impl View for Slug {
    type V = Seq<char>;

    open spec fn view(&self) -> Seq<char> {
        self.0@
    }
}

impl Clone for Slug {
    fn clone(&self) -> (copy: Self)
        ensures
            copy@ == self@,
    {
        Slug(self.0.clone())
    }
}

impl PartialEq for Slug {
    fn eq(&self, other: &Self) -> (same: bool) {
        self.0 == other.0
    }
}

impl PartialEqSpecImpl for Slug {
    open spec fn obeys_eq_spec() -> bool {
        true
    }

    open spec fn eq_spec(&self, other: &Self) -> bool {
        self@ == other@
    }
}

/// The address a short link points to.
#[derive(Debug, Eq, PartialOrd, Ord, Hash)]
pub struct Url(pub String);

impl View for Url {
    type V = Seq<char>;

    open spec fn view(&self) -> Seq<char> {
        self.0@
    }
}

impl Clone for Url {
    fn clone(&self) -> (copy: Self)
        ensures
            copy@ == self@,
    {
        Url(self.0.clone())
    }
}

impl PartialEq for Url {
    fn eq(&self, other: &Self) -> (same: bool) {
        self.0 == other.0
    }
}

impl PartialEqSpecImpl for Url {
    open spec fn obeys_eq_spec() -> bool {
        true
    }

    open spec fn eq_spec(&self, other: &Self) -> bool {
        self@ == other@
    }
}

/// What a [`ShortLink`] is, as mathematics: the text of its slug and of its URL.
pub struct ShortLinkView {
    pub slug: Seq<char>,
    pub url: Seq<char>,
}

/// A slug together with the URL registered under it.
#[derive(Debug, Eq, PartialOrd, Ord, Hash)]
pub struct ShortLink {
    /// The token that identifies the link.
    pub slug: Slug,
    /// The address the link points to.
    pub url: Url,
}

impl View for ShortLink {
    type V = ShortLinkView;

    open spec fn view(&self) -> ShortLinkView {
        ShortLinkView { slug: self.slug@, url: self.url@ }
    }
}

impl Clone for ShortLink {
    fn clone(&self) -> (copy: Self)
        ensures
            copy@ == self@,
    {
        ShortLink { slug: self.slug.clone(), url: self.url.clone() }
    }
}

impl PartialEq for ShortLink {
    fn eq(&self, other: &Self) -> (same: bool) {
        self.slug == other.slug && self.url == other.url
    }
}

impl PartialEqSpecImpl for ShortLink {
    open spec fn obeys_eq_spec() -> bool {
        true
    }

    open spec fn eq_spec(&self, other: &Self) -> bool {
        self@ == other@
    }
}

/// What a [`Stats`] is, as mathematics.
pub struct StatsView {
    pub link: ShortLinkView,
    pub redirects: nat,
}

/// A short link joined with the number of times it was followed.
#[derive(Debug)]
pub struct Stats {
    /// The link the count belongs to.
    pub link: ShortLink,
    /// How many redirects were served for the link.
    pub redirects: u64,
}

impl View for Stats {
    type V = StatsView;

    open spec fn view(&self) -> StatsView {
        StatsView { link: self.link@, redirects: self.redirects as nat }
    }
}

impl Clone for Stats {
    fn clone(&self) -> (copy: Self)
        ensures
            copy@ == self@,
    {
        Stats { link: self.link.clone(), redirects: self.redirects }
    }
}

impl PartialEq for Stats {
    fn eq(&self, other: &Self) -> (same: bool) {
        self.link == other.link && self.redirects == other.redirects
    }
}

impl PartialEqSpecImpl for Stats {
    open spec fn obeys_eq_spec() -> bool {
        true
    }

    open spec fn eq_spec(&self, other: &Self) -> bool {
        self@ == other@
    }
}

/// The view of a command's outcome: the link by its text, the error as it is.
pub open spec fn link_outcome(result: Result<ShortLink, ShortenerError>) -> Result<
    ShortLinkView,
    ShortenerError,
> {
    match result {
        Ok(link) => Ok(link@),
        Err(error) => Err(error),
    }
}

/// The view of a query's outcome.
pub open spec fn stats_outcome(result: Result<Stats, ShortenerError>) -> Result<
    StatsView,
    ShortenerError,
> {
    match result {
        Ok(stats) => Ok(stats@),
        Err(error) => Err(error),
    }
}

} // verus!
