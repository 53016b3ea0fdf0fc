//! What holds of every resolution of an `href`, proved from the definition
//! of `resolve`.
//!
//! `resolve` goes through the URL parser, of which the library knows only
//! the outcome. So the laws that depend on the parser are stated over
//! `resolve_parsed`, for every outcome that the parser may have; those that
//! do not are stated over `resolve` itself.

use crate::link::link_constructor::{
    directory_of, lemma_markers, parse_target, resolve, resolve_parsed, LinkBase,
};
use crate::link::parts::{is_relative_without_base, UrlPartsView, UrlRejectionView};
use vstd::prelude::*;

verus! {

/// A fragment resolves to the page itself, whatever the page and whatever
/// follows the `#`.
pub proof fn lemma_fragment_is_the_page(base: LinkBase, href: Seq<char>)
    requires
        "#"@.is_prefix_of(href),
    ensures
        resolve(base, href) == Some(base.full),
        forall|parsed: Result<UrlPartsView, UrlRejectionView>|
            resolve_parsed(base, href, parsed) == Some(base.full),
{
    lemma_markers(href);
}

/// A `javascript:` link is refused, whatever the page.
pub proof fn lemma_script_is_refused(base: LinkBase, href: Seq<char>)
    requires
        "javascript:"@.is_prefix_of(href),
    ensures
        resolve(base, href) is None,
        forall|parsed: Result<UrlPartsView, UrlRejectionView>|
            resolve_parsed(base, href, parsed) is None,
{
}

/// A scheme-relative link is parsed with the page's scheme in front, and
/// resolves to what the parser writes for it. Where the parser writes the
/// text as it got it, the link is the page's scheme, a colon and the `href`.
pub proof fn lemma_scheme_relative_takes_the_scheme(
    base: LinkBase,
    href: Seq<char>,
    parsed: Result<UrlPartsView, UrlRejectionView>,
)
    requires
        "//"@.is_prefix_of(href),
        parsed is Ok,
    ensures
        parse_target(base, href) == base.scheme + ":"@ + href,
        resolve_parsed(base, href, parsed) == Some(parsed->Ok_0.text),
        parsed->Ok_0.text == parse_target(base, href) ==> resolve_parsed(base, href, parsed)
            == Some(base.scheme + ":"@ + href),
{
    lemma_markers(href);
}

/// A link that begins with a slash, and that the parser calls relative,
/// resolves to the page's scheme and authority followed by the `href`.
pub proof fn lemma_root_relative_keeps_the_authority(
    base: LinkBase,
    href: Seq<char>,
    parsed: Result<UrlPartsView, UrlRejectionView>,
)
    requires
        "/"@.is_prefix_of(href),
        is_relative_without_base(parsed),
    ensures
        resolve_parsed(base, href, parsed) == Some(base.scheme + "://"@ + base.authority + href),
{
    lemma_markers(href);
}

/// A link that the parser calls relative, and that begins with none of the
/// markers, resolves to the page's scheme, authority and directory followed
/// by the `href`. No `.` or `..` in it is folded.
pub proof fn lemma_path_relative_is_appended_to_the_directory(
    base: LinkBase,
    href: Seq<char>,
    parsed: Result<UrlPartsView, UrlRejectionView>,
)
    requires
        !"javascript:"@.is_prefix_of(href),
        !"#"@.is_prefix_of(href),
        !"/"@.is_prefix_of(href),
        is_relative_without_base(parsed),
    ensures
        resolve_parsed(base, href, parsed) == Some(
            base.scheme + "://"@ + base.authority + base.directory + href,
        ),
{
}

/// A link that the parser accepts resolves to what the parser writes for
/// it: an absolute link that the parser writes as it got it comes back
/// unchanged.
pub proof fn lemma_absolute_is_what_the_parser_writes(
    base: LinkBase,
    href: Seq<char>,
    parsed: Result<UrlPartsView, UrlRejectionView>,
)
    requires
        !"javascript:"@.is_prefix_of(href),
        !"#"@.is_prefix_of(href),
        parsed is Ok,
    ensures
        resolve_parsed(base, href, parsed) == Some(parsed->Ok_0.text),
        parsed->Ok_0.text == href ==> resolve_parsed(base, href, parsed) == Some(href),
{
}

/// A link that the parser rejects for another reason than being relative
/// is refused.
pub proof fn lemma_other_rejection_is_refused(
    base: LinkBase,
    href: Seq<char>,
    parsed: Result<UrlPartsView, UrlRejectionView>,
)
    requires
        !"#"@.is_prefix_of(href),
        parsed is Err,
        !is_relative_without_base(parsed),
    ensures
        resolve_parsed(base, href, parsed) is None,
{
}

/// A directory ends with a slash. Of a path with a slash in it, it is the
/// beginning of the path up to the last slash; of any other path, it is a
/// single slash.
pub proof fn lemma_directory_is_cut_after_the_last_slash(path: Seq<char>)
    ensures
        directory_of(path).len() > 0,
        directory_of(path).last() == '/',
        path.contains('/') ==> directory_of(path).is_prefix_of(path) && !path.skip(
            directory_of(path).len() as int,
        ).contains('/'),
        !path.contains('/') ==> directory_of(path) == seq!['/'],
    decreases path.len(),
{
    if path.len() == 0 {
    } else if path.last() == '/' {
        assert(path =~= path.subrange(0, path.len() as int));
        assert(path[path.len() - 1] == '/');
        assert(path.skip(path.len() as int) =~= Seq::<char>::empty());
    } else {
        let shorter = path.drop_last();
        lemma_directory_is_cut_after_the_last_slash(shorter);
        let dir = directory_of(shorter);
        if path.contains('/') {
            let i = choose|i: int| 0 <= i < path.len() && path[i] == '/';
            assert(shorter[i] == '/');
            assert(dir =~= path.subrange(0, dir.len() as int));
            let rest = path.skip(dir.len() as int);
            assert(rest =~= shorter.skip(dir.len() as int).push(path.last()));
            if rest.contains('/') {
                let k = choose|k: int| 0 <= k < rest.len() && rest[k] == '/';
                assert(shorter.skip(dir.len() as int)[k] == '/');
            }
        } else {
            if shorter.contains('/') {
                let i = choose|i: int| 0 <= i < shorter.len() && shorter[i] == '/';
                assert(path[i] == '/');
            }
        }
    }
}

/// The directory of a resource in a directory is that directory: with a
/// path made of `dir`, which ends with a slash, and a `leaf` without one,
/// a relative `href` lands beside the leaf.
pub proof fn lemma_directory_of_a_resource(dir: Seq<char>, leaf: Seq<char>)
    requires
        dir.len() > 0,
        dir.last() == '/',
        !leaf.contains('/'),
    ensures
        directory_of(dir + leaf) == dir,
    decreases leaf.len(),
{
    if leaf.len() == 0 {
        assert(dir + leaf =~= dir);
    } else {
        let shorter = leaf.drop_last();
        assert((dir + leaf).drop_last() =~= dir + shorter);
        assert((dir + leaf).last() == leaf.last());
        assert(leaf[leaf.len() - 1] == leaf.last());
        if shorter.contains('/') {
            let i = choose|i: int| 0 <= i < shorter.len() && shorter[i] == '/';
            assert(leaf[i] == '/');
        }
        lemma_directory_of_a_resource(dir, shorter);
    }
}

} // verus!
