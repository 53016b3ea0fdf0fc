//! Resolving the raw `href` of an anchor against the page it was found on.

use crate::link::error::{LinkConstructionError, LinkFailure};
use crate::link::parts::{
    is_relative_without_base, parse_uri, parse_url, uri_outcome, uri_parse, url_outcome,
    url_parse, UriParts, UriPartsView, UrlParts, UrlPartsView, UrlRejection, UrlRejectionView,
};
use crate::text::{join2, lemma_texts_push, starts_with, texts, to_chars};
use vstd::prelude::*;

verus! {

/// What a page contributes to the links found on it.
pub struct LinkBase {
    /// The page's scheme.
    pub scheme: Seq<char>,
    /// Host and optional port; empty where the page address has none.
    pub authority: Seq<char>,
    /// The page's path up to and including its last slash.
    pub directory: Seq<char>,
    /// The page address as it was given.
    pub full: Seq<char>,
}

/// Builds absolute links from the `href`s of one page.
pub struct LinkConstructor {
    scheme: String,
    authority: String,
    path: String,
    parent: String,
}

impl View for LinkConstructor {
    type V = LinkBase;

    closed spec fn view(&self) -> LinkBase {
        LinkBase {
            scheme: self.scheme@,
            authority: self.authority@,
            directory: self.path@,
            full: self.parent@,
        }
    }
}

/// The directory of a path: the path without what follows its last slash,
/// and a single slash where the path has none.
pub open spec fn directory_of(path: Seq<char>) -> Seq<char>
    decreases path.len(),
{
    if path.len() == 0 {
        seq!['/']
    } else if path.last() == '/' {
        path
    } else {
        directory_of(path.drop_last())
    }
}

/// The base that a page address gives, from what the URI parser made of it.
pub open spec fn base_of(parent: Seq<char>, parsed: Result<UriPartsView, Seq<char>>) -> Result<
    LinkBase,
    LinkFailure,
> {
    match parsed {
        Err(detail) => Err(LinkFailure::ParseError(detail)),
        Ok(uri) => match uri.scheme {
            None => Err(LinkFailure::MissingScheme),
            Some(scheme) => Ok(
                LinkBase {
                    scheme,
                    authority: match uri.authority {
                        Some(authority) => authority,
                        None => Seq::empty(),
                    },
                    directory: directory_of(uri.path),
                    full: parent,
                },
            ),
        },
    }
}

/// A constructor, or the reason there is none, over sequences of characters.
pub open spec fn constructor_outcome(built: Result<LinkConstructor, LinkConstructionError>) -> Result<
    LinkBase,
    LinkFailure,
> {
    match built {
        Ok(constructor) => Ok(constructor@),
        Err(error) => Err(error@),
    }
}

/// The text handed to the URL parser for an `href`: a scheme-relative one
/// (two leading slashes) gets the page's scheme and a colon in front.
pub open spec fn parse_target(base: LinkBase, href: Seq<char>) -> Seq<char> {
    if "//"@.is_prefix_of(href) {
        base.scheme + ":"@ + href
    } else {
        href
    }
}

/// The absolute link for `href` on a page with `base`, given what the URL
/// parser made of `parse_target(base, href)`; `None` where the `href` is
/// refused.
pub open spec fn resolve_parsed(
    base: LinkBase,
    href: Seq<char>,
    parsed: Result<UrlPartsView, UrlRejectionView>,
) -> Option<Seq<char>> {
    if "javascript:"@.is_prefix_of(href) {
        None
    } else if "#"@.is_prefix_of(href) {
        Some(base.full)
    } else if parsed is Ok {
        Some(parsed->Ok_0.text)
    } else if !is_relative_without_base(parsed) {
        None
    } else if "/"@.is_prefix_of(href) {
        Some(base.scheme + "://"@ + base.authority + href)
    } else {
        Some(base.scheme + "://"@ + base.authority + base.directory + href)
    }
}

/// The absolute link for `href` on a page with `base`.
pub open spec fn resolve(base: LinkBase, href: Seq<char>) -> Option<Seq<char>> {
    resolve_parsed(base, href, url_parse(parse_target(base, href)))
}

/// The absolute links for `hrefs` on a page with `base`, in order; an `href`
/// that is refused is passed over.
pub open spec fn resolve_all(base: LinkBase, hrefs: Seq<Seq<char>>) -> Seq<Seq<char>>
    decreases hrefs.len(),
{
    if hrefs.len() == 0 {
        Seq::empty()
    } else {
        let earlier = resolve_all(base, hrefs.drop_last());
        match resolve(base, hrefs.last()) {
            Some(link) => earlier.push(link),
            None => earlier,
        }
    }
}

/// Whether `link` is the outcome `expected`: the text on success, and
/// `BadUri` where there is none.
pub open spec fn is_resolution(
    link: Result<String, LinkConstructionError>,
    expected: Option<Seq<char>>,
) -> bool {
    match link {
        Ok(text) => expected == Some(text@),
        Err(error) => expected is None && error is BadUri,
    }
}

/// The directory of `path`, computed.
fn directory(path: &str) -> (dir: String)
    ensures
        dir@ == directory_of(path@),
{
    let chars = to_chars(path);
    let mut end: usize = chars.len();
    assert(path@.take(end as int) =~= path@);
    while end > 0 && chars[end - 1] != '/'
        invariant
            end <= chars.len(),
            chars@ == path@,
            directory_of(path@) == directory_of(path@.take(end as int)),
        decreases end,
    {
        assert(path@.take(end as int).drop_last() =~= path@.take(end as int - 1));
        end -= 1;
    }
    if end == 0 {
        proof {
            reveal_strlit("/");
        }
        assert(path@.take(0).len() == 0);
        assert("/"@ =~= seq!['/']);
        String::from_str("/")
    } else {
        assert(path@.take(end as int).last() == '/');
        assert(path@.take(end as int) =~= path@.subrange(0, end as int));
        String::from_str(path.substring_char(0, end))
    }
}

impl LinkConstructor {
    /// The constructor for the page at `parent`.
    ///
    /// Fails with `ParseError` where the URI parser rejects `parent`, and with
    /// `MissingScheme` where the parsed address has no scheme.
    pub fn try_from(parent: &str) -> (built: Result<LinkConstructor, LinkConstructionError>)
        ensures
            constructor_outcome(built) == base_of(parent@, uri_parse(parent@)),
    {
        let parsed = parse_uri(parent);
        LinkConstructor::from_parts(parent, parsed)
    }

    /// The constructor for the page at `parent`, from what the URI parser
    /// made of `parent`.
    pub fn from_parts(parent: &str, parsed: Result<UriParts, String>) -> (built: Result<
        LinkConstructor,
        LinkConstructionError,
    >)
        ensures
            constructor_outcome(built) == base_of(parent@, uri_outcome(parsed)),
    {
        match parsed {
            Err(detail) => Err(LinkConstructionError::from_invalid_uri(detail)),
            Ok(uri) => match uri.scheme {
                None => Err(LinkConstructionError::MissingScheme),
                Some(scheme) => {
                    let authority = match uri.authority {
                        Some(authority) => authority,
                        None => String::new(),
                    };
                    let path = directory(uri.path.as_str());
                    Ok(LinkConstructor { scheme, authority, path, parent: String::from_str(parent) })
                },
            },
        }
    }

    /// The page's scheme.
    pub fn scheme(&self) -> (scheme: &str)
        ensures
            scheme@ == self@.scheme,
    {
        self.scheme.as_str()
    }

    /// The page's host and optional port.
    pub fn authority(&self) -> (authority: &str)
        ensures
            authority@ == self@.authority,
    {
        self.authority.as_str()
    }

    /// The page's directory.
    pub fn path(&self) -> (path: &str)
        ensures
            path@ == self@.directory,
    {
        self.path.as_str()
    }

    /// The page address as it was given.
    pub fn parent(&self) -> (parent: &str)
        ensures
            parent@ == self@.full,
    {
        self.parent.as_str()
    }

    /// The absolute link for `href`, from what the URL parser made of
    /// `parse_target(self@, href@)`.
    pub fn construct_parsed(&self, href: &str, parsed: Result<UrlParts, UrlRejection>) -> (link:
        Result<String, LinkConstructionError>)
        ensures
            is_resolution(link, resolve_parsed(self@, href@, url_outcome(parsed))),
    {
        if starts_with(href, "javascript:") {
            return Err(LinkConstructionError::BadUri);
        }
        if starts_with(href, "#") {
            return Ok(self.parent.clone());
        }
        match parsed {
            Ok(url) => Ok(url.text),
            Err(rejection) => {
                if !rejection.relative_without_base {
                    Err(LinkConstructionError::BadUri)
                } else if starts_with(href, "/") {
                    Ok(
                        join2(self.scheme.as_str(), "://").concat(self.authority.as_str()).concat(
                            href,
                        ),
                    )
                } else {
                    Ok(
                        join2(self.scheme.as_str(), "://").concat(self.authority.as_str()).concat(
                            self.path.as_str(),
                        ).concat(href),
                    )
                }
            },
        }
    }

    /// The absolute link for the `href` of an anchor on this page.
    ///
    /// A `javascript:` link is refused. A fragment (`#...`) is the page
    /// itself. A scheme-relative link (`//...`) takes the page's scheme. What
    /// the URL parser accepts as absolute is written as the parser writes it.
    /// What it calls relative is appended to the page's scheme and authority,
    /// and to its directory too unless it begins with a slash; no `.` or `..`
    /// segment is folded. Anything else is refused.
    pub fn construct(&self, href: &str) -> (link: Result<String, LinkConstructionError>)
        ensures
            is_resolution(link, resolve(self@, href@)),
            "javascript:"@.is_prefix_of(href@) ==> link is Err && link->Err_0 is BadUri,
            "#"@.is_prefix_of(href@) ==> is_resolution(link, Some(self@.full)),
            "/"@.is_prefix_of(href@) && !"//"@.is_prefix_of(href@) ==> is_resolution(
                link,
                Some(self@.scheme + "://"@ + self@.authority + href@),
            ),
            !href@.contains(':') && !"/"@.is_prefix_of(href@) && !"#"@.is_prefix_of(href@)
                ==> is_resolution(
                link,
                Some(self@.scheme + "://"@ + self@.authority + self@.directory + href@),
            ),
    {
        proof {
            lemma_markers(href@);
        }
        if starts_with(href, "javascript:") {
            return Err(LinkConstructionError::BadUri);
        }
        if starts_with(href, "#") {
            return Ok(self.parent.clone());
        }
        let target = if starts_with(href, "//") {
            join2(self.scheme.as_str(), ":").concat(href)
        } else {
            String::from_str(href)
        };
        let parsed = parse_url(target.as_str());
        self.construct_parsed(href, parsed)
    }

    /// The absolute links for the `hrefs` of this page, in order. An `href`
    /// for which there is no link is passed over.
    pub fn construct_all(&self, hrefs: &Vec<String>) -> (links: Vec<String>)
        ensures
            texts(links@) == resolve_all(self@, texts(hrefs@)),
    {
        let mut links: Vec<String> = Vec::new();
        let mut i: usize = 0;
        assert(texts(hrefs@).take(0) =~= Seq::<Seq<char>>::empty());
        assert(texts(links@) =~= Seq::<Seq<char>>::empty());
        while i < hrefs.len()
            invariant
                i <= hrefs@.len(),
                texts(links@) == resolve_all(self@, texts(hrefs@).take(i as int)),
            decreases hrefs@.len() - i,
        {
            assert(texts(hrefs@).take(i as int + 1).drop_last() =~= texts(hrefs@).take(i as int));
            match self.construct(hrefs[i].as_str()) {
                Ok(link) => {
                    proof {
                        lemma_texts_push(links@, link);
                    }
                    links.push(link);
                },
                Err(_) => {},
            }
            i += 1;
        }
        assert(texts(hrefs@).take(hrefs@.len() as int) =~= texts(hrefs@));
        links
    }
}

/// How the four markers that `resolve` looks for exclude one another: a text
/// that begins with `javascript:` has a colon and begins with neither `#`
/// nor `/`; one that begins with `#` does not begin with `/`; one that
/// begins with `//` begins with `/`.
pub proof fn lemma_markers(href: Seq<char>)
    ensures
        "javascript:"@.is_prefix_of(href) ==> href.contains(':') && !"#"@.is_prefix_of(href)
            && !"/"@.is_prefix_of(href),
        "#"@.is_prefix_of(href) ==> !"/"@.is_prefix_of(href),
        "//"@.is_prefix_of(href) ==> "/"@.is_prefix_of(href),
        "/"@.is_prefix_of(href) <==> href.len() > 0 && href[0] == '/',
        "#"@.is_prefix_of(href) <==> href.len() > 0 && href[0] == '#',
{
    reveal_strlit("javascript:");
    reveal_strlit("#");
    reveal_strlit("/");
    reveal_strlit("//");
    if "javascript:"@.is_prefix_of(href) {
        assert(href.subrange(0, 11)[10] == ':');
        assert(href[10] == ':');
        assert(href.subrange(0, 11)[0] == 'j');
    }
    if "#"@.is_prefix_of(href) {
        assert(href.subrange(0, 1)[0] == '#');
    }
    if "/"@.is_prefix_of(href) {
        assert(href.subrange(0, 1)[0] == '/');
    }
    if "//"@.is_prefix_of(href) {
        assert(href.subrange(0, 2)[0] == '/');
        assert("/"@ =~= href.subrange(0, 1));
    }
    if href.len() > 0 && href[0] == '/' {
        assert("/"@ =~= href.subrange(0, 1));
    }
    if href.len() > 0 && href[0] == '#' {
        assert("#"@ =~= href.subrange(0, 1));
    }
}

} // verus!
