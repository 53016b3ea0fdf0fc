//! The policies that decide whether a link may enter the queue.

use crate::link::error::{bad_url_message, LinkConstructionError, LinkFailure};
use crate::link::parts::{
    parse_url, url_outcome, url_parse, UrlParts, UrlPartsView, UrlRejection, UrlRejectionView,
};
use crate::text::starts_with;
use vstd::prelude::*;

verus! {

/// A policy on links. It is a pure predicate: what it decides of a link
/// depends on the policy and the link alone.
pub trait QueueAdditionDecider: Sync + Send {
    /// Whether the policy lets `link` in. An implementation says what it
    /// lets in; where it does not, nothing is known of its decisions but
    /// that they depend on the link alone.
    open spec fn admits(&self, link: Seq<char>) -> bool {
        arbitrary()
    }

    /// Decides on `link`.
    fn can_add_to_queue(&self, link: &str) -> (decision: bool)
        ensures
            decision == self.admits(link@),
    ;
}

/// The host that the URL parser reports, empty where it reports none.
pub open spec fn host_or_empty(url: UrlPartsView) -> Seq<char> {
    match url.host {
        Some(host) => host,
        None => Seq::empty(),
    }
}

/// Whether a link that the URL parser read as `parsed` is on the host
/// `parent`: it has to parse, and its host has to be `parent` character for
/// character.
pub open spec fn same_host_parsed(
    parent: Seq<char>,
    parsed: Result<UrlPartsView, UrlRejectionView>,
) -> bool {
    parsed is Ok && host_or_empty(parsed->Ok_0) == parent
}

/// Whether `link` is on the host `parent`.
pub open spec fn same_host(parent: Seq<char>, link: Seq<char>) -> bool {
    same_host_parsed(parent, url_parse(link))
}

/// The policy for a seed, from what the URL parser made of the seed: its
/// host on success, the parser's complaint otherwise.
pub open spec fn seed_host(parsed: Result<UrlPartsView, UrlRejectionView>) -> Result<
    Seq<char>,
    LinkFailure,
> {
    match parsed {
        Ok(url) => Ok(host_or_empty(url)),
        Err(rejection) => Err(LinkFailure::ParseError(bad_url_message(rejection.detail))),
    }
}

/// Lets in the links on one host only.
pub struct AllowOnlySameDomainDecider {
    parent_domain: String,
}

/// A same-host policy, or the reason there is none, over sequences of
/// characters.
pub open spec fn decider_outcome(
    built: Result<AllowOnlySameDomainDecider, LinkConstructionError>,
) -> Result<Seq<char>, LinkFailure> {
    match built {
        Ok(decider) => Ok(decider.parent()),
        Err(error) => Err(error@),
    }
}

impl AllowOnlySameDomainDecider {
    /// The host whose links are let in.
    pub closed spec fn parent(&self) -> Seq<char> {
        self.parent_domain@
    }

    /// The policy for the host of the seed `value`. Fails with `ParseError`
    /// where the URL parser rejects the seed.
    pub fn try_from(value: &str) -> (built: Result<AllowOnlySameDomainDecider, LinkConstructionError>)
        ensures
            decider_outcome(built) == seed_host(url_parse(value@)),
    {
        AllowOnlySameDomainDecider::from_parsed(parse_url(value))
    }

    /// The policy for a seed, from what the URL parser made of the seed.
    pub fn from_parsed(parsed: Result<UrlParts, UrlRejection>) -> (built: Result<
        AllowOnlySameDomainDecider,
        LinkConstructionError,
    >)
        ensures
            decider_outcome(built) == seed_host(url_outcome(parsed)),
    {
        match parsed {
            Ok(url) => {
                let parent_domain = match url.host {
                    Some(host) => host,
                    None => String::new(),
                };
                Ok(AllowOnlySameDomainDecider { parent_domain })
            },
            Err(rejection) => Err(
                LinkConstructionError::from_parse_error(rejection.detail.as_str()),
            ),
        }
    }

    /// The host whose links are let in.
    pub fn parent_domain(&self) -> (host: &str)
        ensures
            host@ == self.parent(),
    {
        self.parent_domain.as_str()
    }

    /// Decides on a link from what the URL parser made of it.
    pub fn admits_parsed(&self, parsed: Result<UrlParts, UrlRejection>) -> (decision: bool)
        ensures
            decision == same_host_parsed(self.parent(), url_outcome(parsed)),
    {
        match parsed {
            Ok(url) => {
                let host = match url.host {
                    Some(host) => host,
                    None => String::new(),
                };
                host == self.parent_domain
            },
            Err(_) => false,
        }
    }
}

impl QueueAdditionDecider for AllowOnlySameDomainDecider {
    open spec fn admits(&self, link: Seq<char>) -> bool {
        same_host(self.parent(), link)
    }

    fn can_add_to_queue(&self, link: &str) -> (decision: bool) {
        self.admits_parsed(parse_url(link))
    }
}

/// Keeps `javascript:` links out.
pub struct IgnoreJavaScriptLinksDecider;

/// Whether `link` is no `javascript:` link.
pub open spec fn is_not_script(link: Seq<char>) -> bool {
    !"javascript:"@.is_prefix_of(link)
}

impl QueueAdditionDecider for IgnoreJavaScriptLinksDecider {
    open spec fn admits(&self, link: Seq<char>) -> bool {
        is_not_script(link)
    }

    fn can_add_to_queue(&self, link: &str) -> (decision: bool) {
        !starts_with(link, "javascript:")
    }
}

/// One of the two policies that every crawl starts with. A queue keeps
/// them apart from its further policies, which are trait objects of which
/// it knows the decisions only: of a standard policy it knows which it is,
/// so that what the queue lets in can be stated, and proved.
pub enum StandardDecider {
    IgnoreJavaScriptLinks(IgnoreJavaScriptLinksDecider),
    AllowOnlySameDomain(AllowOnlySameDomainDecider),
}

impl QueueAdditionDecider for StandardDecider {
    open spec fn admits(&self, link: Seq<char>) -> bool {
        match self {
            StandardDecider::IgnoreJavaScriptLinks(decider) => decider.admits(link),
            StandardDecider::AllowOnlySameDomain(decider) => decider.admits(link),
        }
    }

    fn can_add_to_queue(&self, link: &str) -> (decision: bool) {
        match self {
            StandardDecider::IgnoreJavaScriptLinks(decider) => decider.can_add_to_queue(link),
            StandardDecider::AllowOnlySameDomain(decider) => decider.can_add_to_queue(link),
        }
    }
}

} // verus!
