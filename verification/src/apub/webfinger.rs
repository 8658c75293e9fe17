//! WebFinger: from an account or a URI to the addresses of an actor, and the
//! answer of this server for its own actors.

use vstd::prelude::*;
use vstd::string::*;
use crate::apub::uri::{host_of, url_host};
use crate::apub::username::{
    idna_to_username, spec_username_to_idna, unicode_domain, username_to_idna,
};
use crate::db::actions::actor::{get_actor_by_uri, get_actor_by_username_domain};
use crate::db::models::actor::{Actor, ActorView};
use crate::db::{find_named, find_uri, Database};
use crate::errors::{ActionError, ActionResult};
use crate::hancock::chars::{
    lemma_split_concat, lemma_split_contains, lemma_split_nonempty, lemma_split_plain, split,
};
use crate::strings::{clone_text, starts_with, str_eq, str_starts_with, text_view};

verus! {

#[derive(Debug, Clone, PartialEq, Eq)]
pub struct WebfingerInfo {
    pub acct: WebfingerAcct,
    pub ap: WebfingerAP,
}

#[derive(Debug, Clone, PartialEq, Eq)]
pub struct WebfingerAP {
    pub uri: String,
    pub url: String,
}

#[derive(Debug, Clone, PartialEq, Eq)]
pub struct WebfingerAcct {
    pub preferred_username: String,
    pub domain: String,
}

/// What WebFinger tells of an actor, as plain values.
pub struct WebfingerInfoView {
    pub preferred_username: Seq<char>,
    pub domain: Seq<char>,
    pub uri: Seq<char>,
    pub url: Seq<char>,
}

impl View for WebfingerInfo {
    type V = WebfingerInfoView;

    open spec fn view(&self) -> WebfingerInfoView {
        WebfingerInfoView {
            preferred_username: self.acct.preferred_username@,
            domain: self.acct.domain@,
            uri: self.ap.uri@,
            url: self.ap.url@,
        }
    }
}

/// A link of a WebFinger document.
#[derive(Debug, Clone, PartialEq, Eq)]
pub struct Link {
    pub rel: String,
    pub kind: Option<String>,
    pub href: Option<String>,
}

pub struct LinkView {
    pub rel: Seq<char>,
    pub kind: Option<Seq<char>>,
    pub href: Option<Seq<char>>,
}

impl View for Link {
    type V = LinkView;

    open spec fn view(&self) -> LinkView {
        LinkView { rel: self.rel@, kind: text_view(self.kind), href: text_view(self.href) }
    }
}

/// The WebFinger document that another server answers with.
#[derive(Debug, Clone, PartialEq, Eq)]
pub struct WebfingerResponse {
    pub subject: String,
    pub links: Vec<Link>,
}

/// The WebFinger document that this server answers with.
#[derive(Debug, Clone, PartialEq, Eq)]
pub struct WebfingerDocument {
    pub subject: String,
    pub aliases: Vec<Option<String>>,
    pub links: Vec<Link>,
}

/// The two sides of a text with exactly one `@`.
pub open spec fn two_sides(text: Seq<char>) -> Option<(Seq<char>, Seq<char>)> {
    let pieces = split(text, '@');
    if pieces.len() == 2 {
        Some((pieces[0], pieces[1]))
    } else {
        None
    }
}

/// The name and the domain of an account: the text must start with
/// `acct:`, and what follows must be one name and one domain with exactly
/// one `@` between them.
pub open spec fn spec_parse_acct(subject: Seq<char>) -> Option<(Seq<char>, Seq<char>)> {
    if starts_with(subject, "acct:"@) {
        two_sides(subject.skip("acct:"@.len() as int))
    } else {
        None
    }
}

/// The domain that is asked about a resource: the domain of an account for
/// a resource that starts with `acct:`, else the host of the resource as a URL.
pub open spec fn spec_get_domain(resource: Seq<char>) -> Option<Seq<char>> {
    if starts_with(resource, "acct:"@) {
        match spec_parse_acct(resource) {
            Some(sides) => Some(sides.1),
            None => None,
        }
    } else {
        url_host(resource)
    }
}

/// The address at which a resource is asked about, given the domain to ask.
pub open spec fn webfinger_url_at(domain: Seq<char>, resource: Seq<char>) -> Seq<char> {
    "https://"@ + domain + "/.well-known/webfinger?resource="@ + resource
}

/// The link names an ActivityPub document.
pub open spec fn is_activity_link(link: LinkView) -> bool {
    link.kind == Some("application/activity+json"@)
}

/// The link names a profile page.
pub open spec fn is_profile_link(link: LinkView) -> bool {
    !is_activity_link(link) && link.rel == "http://webfinger.net/rel/profile-page"@
}

pub open spec fn href_or_empty(link: LinkView) -> Seq<char> {
    match link.href {
        Some(href) => href,
        None => Seq::<char>::empty(),
    }
}

/// The address of the last link that names an ActivityPub document, empty
/// where there is none.
pub open spec fn activity_href(links: Seq<Link>) -> Seq<char>
    decreases links.len(),
{
    if links.len() == 0 {
        Seq::<char>::empty()
    } else if is_activity_link(links.last()@) {
        href_or_empty(links.last()@)
    } else {
        activity_href(links.drop_last())
    }
}

/// The address of the last link that names a profile page, empty where
/// there is none.
pub open spec fn profile_href(links: Seq<Link>) -> Seq<char>
    decreases links.len(),
{
    if links.len() == 0 {
        Seq::<char>::empty()
    } else if is_profile_link(links.last()@) {
        href_or_empty(links.last()@)
    } else {
        profile_href(links.drop_last())
    }
}

/// What a WebFinger document tells: its subject must be an account, and it
/// must name both an ActivityPub document and a profile page.
pub open spec fn spec_read_webfinger(subject: Seq<char>, links: Seq<Link>) -> Result<
    WebfingerInfoView,
    ActionError,
> {
    match spec_parse_acct(subject) {
        Some(sides) => {
            if activity_href(links).len() != 0 && profile_href(links).len() != 0 {
                Ok(
                    WebfingerInfoView {
                        preferred_username: sides.0,
                        domain: sides.1,
                        uri: activity_href(links),
                        url: profile_href(links),
                    },
                )
            } else {
                Err(ActionError::FetchError)
            }
        },
        None => Err(ActionError::FetchError),
    }
}

/// Cuts a text at its only `@`.
fn split_at_sign(text: &str) -> (r: Option<(String, String)>)
    ensures
        match r {
            Some(sides) => two_sides(text@) == Some((sides.0@, sides.1@)),
            None => two_sides(text@) is None,
        },
{
    let n = text.unicode_len();
    let mut at: usize = 0;
    while at < n && text.get_char(at) != '@'
        invariant
            at <= n,
            n == text@.len(),
            forall|j: int| 0 <= j < at ==> text@[j] != '@',
        decreases n - at,
    {
        at += 1;
    }
    if at == n {
        proof {
            if text@.contains('@') {
                let k = choose|k: int| 0 <= k < text@.len() && text@[k] == '@';
                assert(text@[k] != '@');
            }
            lemma_split_plain(text@, '@');
        }
        return None;
    }
    let ghost left = text@.subrange(0, at as int);
    let ghost right = text@.subrange(at + 1, n as int);
    proof {
        assert(text@ =~= left + seq!['@'] + right);
        lemma_split_concat(left, right, '@');
        if left.contains('@') {
            let k = choose|k: int| 0 <= k < left.len() && left[k] == '@';
            assert(text@[k] == left[k]);
        }
        lemma_split_plain(left, '@');
        lemma_split_nonempty(right, '@');
    }
    let mut next: usize = at + 1;
    while next < n && text.get_char(next) != '@'
        invariant
            at < next <= n,
            n == text@.len(),
            forall|j: int| at < j < next ==> text@[j] != '@',
        decreases n - next,
    {
        next += 1;
    }
    if next < n {
        proof {
            assert(right[next - at - 1] == '@');
            lemma_split_contains(right, '@');
        }
        return None;
    }
    proof {
        if right.contains('@') {
            let k = choose|k: int| 0 <= k < right.len() && right[k] == '@';
            assert(text@[at + 1 + k] == right[k]);
        }
        lemma_split_plain(right, '@');
        assert(split(text@, '@') =~= seq![left, right]);
    }
    Some(
        (
            String::from_str(text.substring_char(0, at)),
            String::from_str(text.substring_char(at + 1, n)),
        ),
    )
}

/// Reads the name and the domain of an account.
pub fn parse_acct(subject: String) -> (r: Option<WebfingerAcct>)
    ensures
        match r {
            Some(acct) => spec_parse_acct(subject@) == Some((acct.preferred_username@, acct.domain@)),
            None => spec_parse_acct(subject@) is None,
        },
{
    let text = subject.as_str();
    if !str_starts_with(text, "acct:") {
        return None;
    }
    proof {
        reveal_strlit("acct:");
    }
    let n = text.unicode_len();
    let rest = text.substring_char(5, n);
    proof {
        assert(rest@ =~= subject@.skip(5));
    }
    match split_at_sign(rest) {
        Some(sides) => Some(WebfingerAcct { preferred_username: sides.0, domain: sides.1 }),
        None => None,
    }
}

/// The domain that is asked about a resource.
pub fn get_domain(resource: String) -> (r: Option<String>)
    ensures
        text_view(r) == spec_get_domain(resource@),
{
    if str_starts_with(resource.as_str(), "acct:") {
        match parse_acct(resource) {
            Some(acct) => Some(acct.domain),
            None => None,
        }
    } else {
        host_of(resource.as_str())
    }
}

/// The address at which a resource is asked about; `None` for a resource
/// that names no domain.
pub fn webfinger_url(resource: &str) -> (r: Option<String>)
    ensures
        text_view(r) == match spec_get_domain(resource@) {
            Some(domain) => Some(webfinger_url_at(domain, resource@)),
            None => None,
        },
{
    match get_domain(String::from_str(resource)) {
        Some(domain) => {
            let mut url = String::from_str("https://");
            url.append(domain.as_str());
            url.append("/.well-known/webfinger?resource=");
            url.append(resource);
            Some(url)
        },
        None => None,
    }
}

fn href_text(link: &Link) -> (r: String)
    ensures
        r@ == href_or_empty(link@),
{
    match &link.href {
        Some(href) => href.clone(),
        None => String::new(),
    }
}

/// Reads what a WebFinger document tells of an actor.
pub fn read_webfinger(response: WebfingerResponse) -> (r: ActionResult<WebfingerInfo>)
    ensures
        match r {
            Ok(info) => spec_read_webfinger(response.subject@, response.links@) == Ok::<
                WebfingerInfoView,
                ActionError,
            >(info@),
            Err(e) => spec_read_webfinger(response.subject@, response.links@) == Err::<
                WebfingerInfoView,
                ActionError,
            >(e),
        },
{
    let mut uri = String::new();
    let mut url = String::new();
    let mut i: usize = 0;
    let ghost links = response.links@;
    proof {
        assert(links.take(0) =~= Seq::<Link>::empty());
    }
    while i < response.links.len()
        invariant
            i <= response.links.len(),
            links == response.links@,
            uri@ == activity_href(links.take(i as int)),
            url@ == profile_href(links.take(i as int)),
        decreases response.links.len() - i,
    {
        let link = &response.links[i];
        proof {
            assert(links.take(i + 1).drop_last() =~= links.take(i as int));
            assert(links.take(i + 1).last() == links[i as int]);
        }
        let is_activity = match &link.kind {
            Some(kind) => str_eq(kind.as_str(), "application/activity+json"),
            None => false,
        };
        if is_activity {
            uri = href_text(link);
        } else if str_eq(link.rel.as_str(), "http://webfinger.net/rel/profile-page") {
            url = href_text(link);
        }
        i += 1;
    }
    proof {
        assert(links.take(response.links.len() as int) =~= links);
    }
    let acct = match parse_acct(response.subject) {
        Some(acct) => acct,
        None => {
            return Err(ActionError::FetchError);
        },
    };
    if uri.as_str().unicode_len() != 0 && url.as_str().unicode_len() != 0 {
        Ok(WebfingerInfo { acct, ap: WebfingerAP { uri, url } })
    } else {
        Err(ActionError::FetchError)
    }
}

/// What comes of a question to another server: `FetchError` where no
/// document came back, else what the document tells.
pub open spec fn webfinger_answer(
    response: Option<WebfingerResponse>,
    r: ActionResult<WebfingerInfo>,
) -> bool {
    match response {
        Some(document) => match r {
            Ok(info) => spec_read_webfinger(document.subject@, document.links@) == Ok::<
                WebfingerInfoView,
                ActionError,
            >(info@),
            Err(e) => spec_read_webfinger(document.subject@, document.links@) == Err::<
                WebfingerInfoView,
                ActionError,
            >(e),
        },
        None => r == Err::<WebfingerInfo, ActionError>(ActionError::FetchError),
    }
}

/// What `query_webfinger` returns: `FetchError` without a question for a
/// resource that names no domain; else the server of the domain is asked
/// once, at the address for the resource, and its answer is read.
pub open spec fn webfinger_queried<F: Fn(&str) -> Option<WebfingerResponse>>(
    fetch: F,
    resource: Seq<char>,
    r: ActionResult<WebfingerInfo>,
) -> bool {
    match spec_get_domain(resource) {
        Some(domain) => exists|url: &str, response: Option<WebfingerResponse>|
            url@ == webfinger_url_at(domain, resource) && #[trigger] call_ensures(
                fetch,
                (url,),
                response,
            ) && webfinger_answer(response, r),
        None => r == Err::<WebfingerInfo, ActionError>(ActionError::FetchError),
    }
}

/// Asks the server of a resource what it tells about it. `fetch` gets the
/// address of the question and gives the document of the answer, or `None`
/// where the question failed.
pub fn query_webfinger<F: Fn(&str) -> Option<WebfingerResponse>>(resource: String, fetch: &F) -> (r:
    ActionResult<WebfingerInfo>)
    requires
        forall|url: &str| call_requires(*fetch, (url,)),
    ensures
        webfinger_queried(*fetch, resource@, r),
{
    let url = match webfinger_url(resource.as_str()) {
        Some(url) => url,
        None => {
            return Err(ActionError::FetchError);
        },
    };
    let address = url.as_str();
    let response = fetch(address);
    proof {
        assert(call_ensures(*fetch, (address,), response));
    }
    match response {
        Some(document) => read_webfinger(document),
        None => Err(ActionError::FetchError),
    }
}

/// The WebFinger document of this server as plain values.
pub struct WebfingerDocumentView {
    pub subject: Seq<char>,
    pub aliases: Seq<Option<Seq<char>>>,
    pub links: Seq<LinkView>,
}

impl View for WebfingerDocument {
    type V = WebfingerDocumentView;

    open spec fn view(&self) -> WebfingerDocumentView {
        WebfingerDocumentView {
            subject: self.subject@,
            aliases: self.aliases@.map_values(|alias: Option<String>| text_view(alias)),
            links: self.links@.map_values(|link: Link| link@),
        }
    }
}

/// The WebFinger document of an actor of this server: its account with the
/// name in the ASCII form, its URI and its profile page as other names, and
/// links to the profile page and to the actor document.
pub open spec fn webfinger_document(actor: ActorView) -> WebfingerDocumentView {
    WebfingerDocumentView {
        subject: "acct:"@ + spec_username_to_idna(actor.username) + "@"@ + actor.domain,
        aliases: seq![Some(actor.uri), actor.url],
        links: seq![
            LinkView {
                rel: "http://webfinger.net/rel/profile-page"@,
                kind: Some("text/html"@),
                href: actor.url,
            },
            LinkView {
                rel: "self"@,
                kind: Some("application/activity+json"@),
                href: Some(actor.uri),
            },
        ],
    }
}

/// The actor of this server that a resource names: for a resource that
/// reads as an account, the actor with the name, taken in the Unicode form,
/// at the domain; else the actor with the resource as its URI.
pub open spec fn webfinger_subject(actors: Seq<Actor>, resource: Seq<char>) -> Option<Actor> {
    match spec_parse_acct(resource) {
        Some(sides) => find_named(actors, unicode_domain(sides.0), sides.1),
        None => find_uri(actors, resource),
    }
}

/// Renders the WebFinger document of the actor that a resource names.
pub fn render_webfinger(actor: &Actor) -> (r: WebfingerDocument)
    ensures
        r@ == webfinger_document(actor@),
{
    let mut subject = String::from_str("acct:");
    let name = username_to_idna(actor.username.as_str());
    subject.append(name.as_str());
    subject.append("@");
    subject.append(actor.domain.as_str());
    let mut aliases: Vec<Option<String>> = Vec::new();
    aliases.push(Some(actor.uri.clone()));
    aliases.push(clone_text(&actor.url));
    let mut links: Vec<Link> = Vec::new();
    links.push(
        Link {
            rel: String::from_str("http://webfinger.net/rel/profile-page"),
            kind: Some(String::from_str("text/html")),
            href: clone_text(&actor.url),
        },
    );
    links.push(
        Link {
            rel: String::from_str("self"),
            kind: Some(String::from_str("application/activity+json")),
            href: Some(actor.uri.clone()),
        },
    );
    let document = WebfingerDocument { subject, aliases, links };
    proof {
        assert(document@.aliases =~= webfinger_document(actor@).aliases);
        assert(document@.links =~= webfinger_document(actor@).links);
    }
    document
}

/// The WebFinger document of the actor of this server that a resource
/// names; `NotFound` where it names none.
pub fn get_webfinger(db: &Database, resource: &str) -> (r: ActionResult<WebfingerDocument>)
    ensures
        match webfinger_subject(db.actors(), resource@) {
            Some(actor) => r matches Ok(document) && document@ == webfinger_document(actor@),
            None => r == Err::<WebfingerDocument, ActionError>(ActionError::NotFound),
        },
{
    let actor = match parse_acct(String::from_str(resource)) {
        Some(webfinger_acct) => {
            let username = idna_to_username(webfinger_acct.preferred_username.as_str());
            let domain = webfinger_acct.domain;
            get_actor_by_username_domain(db, username.as_str(), domain.as_str())?
        },
        None => get_actor_by_uri(db, resource)?,
    };
    Ok(render_webfinger(&actor))
}

} // verus!
