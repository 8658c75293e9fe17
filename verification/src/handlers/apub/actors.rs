//! The documents of an actor: the actor itself, its outbox and its followers.

use vstd::prelude::*;
use vstd::string::*;
use crate::apub::models::actor::{actor_document, Actor as ActorS, Outbox};
use crate::apub::models::PagedCollection;
use crate::db::actions::actor::get_actor_by_username_domain;
use crate::db::actions::follow::{
    actor_count_followers, actor_get_followers, actors_view, page_end, page_start, PAGE_SIZE,
};
use crate::db::models::actor::Actor;
use crate::db::{find_named, followers_of, Database};
use crate::errors::ActionError;
use crate::hancock::number::{decimal, push_decimal};
use crate::handlers::Reject;
use crate::strings::text_view;

verus! {

/// The answer to a request for an actor: its document, or the error with
/// its status.
#[derive(Debug, Clone, PartialEq, Eq)]
pub enum UserReply {
    Document(ActorS),
    Failed(u16, ActionError),
}

/// Answers a request for the actor with a name at a domain.
pub fn get_user(db: &Database, domain: &str, username: &str) -> (r: UserReply)
    ensures
        match find_named(db.actors(), username@, domain@) {
            Some(actor) => r matches UserReply::Document(document) && document@ == actor_document(
                actor@,
            ),
            None => r == UserReply::Failed(404, ActionError::NotFound),
        },
{
    match get_actor_by_username_domain(db, username, domain) {
        Ok(actor) => UserReply::Document(ActorS::from(&actor)),
        Err(e) => match e {
            ActionError::NotFound => UserReply::Failed(e.status_code(), e),
            _ => UserReply::Failed(500, ActionError::InternalError),
        },
    }
}

/// The address of a collection of an actor of this server.
pub open spec fn collection_address(domain: Seq<char>, username: Seq<char>, tail: Seq<char>) -> Seq<
    char,
> {
    "https://"@ + domain + "/users/"@ + username + tail
}

fn make_address(domain: &str, username: &str, tail: &str) -> (r: String)
    ensures
        r@ == collection_address(domain@, username@, tail@),
{
    let mut out = String::from_str("https://");
    out.append(domain);
    out.append("/users/");
    out.append(username);
    out.append(tail);
    out
}

/// The outbox of an actor: always empty. Its id is the address of the inbox.
pub fn get_user_outbox(domain: &str, username: &str) -> (r: Outbox)
    ensures
        r.kind@ == "OrderedCollection"@,
        r.id@ == collection_address(domain@, username@, "/inbox"@),
        r.total_items == 0,
        r.ordered_items@.len() == 0,
{
    Outbox {
        kind: String::from_str("OrderedCollection"),
        id: make_address(domain, username, "/inbox"),
        total_items: 0,
        ordered_items: Vec::new(),
    }
}

/// The followers of an actor as a whole: their number and where the first
/// page is.
#[derive(Debug, Clone, PartialEq, Eq)]
pub struct FollowersCollection {
    pub kind: String,
    pub id: String,
    pub total_items: i64,
    pub first: String,
}

/// One page of the followers of an actor.
#[derive(Debug, Clone, PartialEq, Eq)]
pub struct FollowersPage {
    pub kind: String,
    pub id: String,
    pub next: Option<String>,
    pub prev: Option<String>,
    pub total_items: i64,
    pub ordered_items: Vec<String>,
}

#[derive(Debug, Clone, PartialEq, Eq)]
pub enum FollowersReply {
    Collection(FollowersCollection),
    Page(FollowersPage),
}

/// The address of a page of the followers.
pub open spec fn page_address(domain: Seq<char>, username: Seq<char>, page: int) -> Seq<char> {
    collection_address(domain, username, "/followers?page="@) + decimal(page as nat)
}

fn make_page_address(domain: &str, username: &str, page: i64) -> (r: String)
    requires
        page >= 0,
    ensures
        r@ == page_address(domain@, username@, page as int),
{
    let mut out = make_address(domain, username, "/followers?page=");
    push_decimal(&mut out, page as u64);
    out
}

/// The URIs of a list of actors.
pub open spec fn uris_of(actors: Seq<Actor>) -> Seq<Seq<char>> {
    actors.map_values(|actor: Actor| actor.uri@)
}

/// The views of a list of texts.
pub open spec fn texts_of(list: Seq<String>) -> Seq<Seq<char>> {
    list.map_values(|text: String| text@)
}

/// The followers of an actor as a whole.
pub open spec fn is_followers_collection(
    collection: FollowersCollection,
    domain: Seq<char>,
    username: Seq<char>,
    total: int,
) -> bool {
    &&& collection.kind@ == "OrderedCollection"@
    &&& collection.id@ == collection_address(domain, username, "/followers"@)
    &&& collection.total_items == total
    &&& collection.first@ == collection_address(domain, username, "/followers?page=1"@)
}

/// The page `page` of the list `followers`: its twelve followers at most,
/// with the address of the next page where followers are left after it, and
/// of the page before where it is not the first.
pub open spec fn is_followers_page(
    shown: FollowersPage,
    domain: Seq<char>,
    username: Seq<char>,
    page: i64,
    followers: Seq<Actor>,
) -> bool {
    &&& shown.kind@ == "OrderedCollectionPage"@
    &&& shown.id@ == page_address(domain, username, page as int)
    &&& text_view(shown.next) == (if followers.len() > 12 * page {
        Some(page_address(domain, username, page + 1))
    } else {
        None
    })
    &&& text_view(shown.prev) == (if page > 1 {
        Some(page_address(domain, username, page - 1))
    } else {
        None
    })
    &&& shown.total_items == followers.len()
    &&& texts_of(shown.ordered_items@) == uris_of(followers).subrange(
        page_start(page, followers.len() as int),
        page_end(page, followers.len() as int),
    )
}

/// What `get_user_followers` answers. An actor that is not in the store is
/// `NotFound`. Without a page, the answer is the collection as a whole;
/// with a page, it is that page, and a page below 1 is `NotFound`.
pub open spec fn followers_answered(
    db: Database,
    domain: Seq<char>,
    username: Seq<char>,
    page: Option<i64>,
    r: Result<FollowersReply, Reject>,
) -> bool {
    match find_named(db.actors(), username, domain) {
        Some(actor) => {
            let followers = followers_of(db.actors(), db.follows(), actor.id);
            if followers.len() > i64::MAX {
                r == Err::<FollowersReply, Reject>(Reject::Custom(ActionError::InternalError))
            } else {
                match page {
                    Some(number) => {
                        if number < 1 {
                            r == Err::<FollowersReply, Reject>(
                                Reject::Custom(ActionError::NotFound),
                            )
                        } else {
                            r matches Ok(FollowersReply::Page(shown)) && is_followers_page(
                                shown,
                                domain,
                                username,
                                number,
                                followers,
                            )
                        }
                    },
                    None => r matches Ok(FollowersReply::Collection(collection))
                        && is_followers_collection(
                        collection,
                        domain,
                        username,
                        followers.len() as int,
                    ),
                }
            }
        },
        None => r == Err::<FollowersReply, Reject>(Reject::Custom(ActionError::NotFound)),
    }
}

pub fn get_user_followers(
    db: &Database,
    domain: &str,
    username: &str,
    paged_collection: &PagedCollection,
) -> (r: Result<FollowersReply, Reject>)
    ensures
        followers_answered(*db, domain@, username@, paged_collection.page(), r),
{
    if paged_collection.is_paged() {
        get_user_followers_paged(db, domain, username, paged_collection)
    } else {
        get_user_followers_not_paged(db, domain, username, paged_collection)
    }
}

pub fn get_user_followers_not_paged(
    db: &Database,
    domain: &str,
    username: &str,
    paged_collection: &PagedCollection,
) -> (r: Result<FollowersReply, Reject>)
    requires
        paged_collection.page() is None,
    ensures
        followers_answered(*db, domain@, username@, paged_collection.page(), r),
{
    let actor = match get_actor_by_username_domain(db, username, domain) {
        Ok(actor) => actor,
        Err(e) => {
            return Err(Reject::Custom(e));
        },
    };
    let total_items = match actor_count_followers(db, &actor) {
        Ok(n) => n,
        Err(e) => {
            return Err(Reject::Custom(e));
        },
    };
    Ok(
        FollowersReply::Collection(
            FollowersCollection {
                kind: String::from_str("OrderedCollection"),
                id: make_address(domain, username, "/followers"),
                total_items,
                first: make_address(domain, username, "/followers?page=1"),
            },
        ),
    )
}

pub fn get_user_followers_paged(
    db: &Database,
    domain: &str,
    username: &str,
    paged_collection: &PagedCollection,
) -> (r: Result<FollowersReply, Reject>)
    requires
        paged_collection.page() is Some,
    ensures
        followers_answered(*db, domain@, username@, paged_collection.page(), r),
{
    let page_number = paged_collection.page_number();
    let actor = match get_actor_by_username_domain(db, username, domain) {
        Ok(actor) => actor,
        Err(e) => {
            return Err(Reject::Custom(e));
        },
    };
    let ghost all = followers_of(db.actors(), db.follows(), actor.id);
    let total_items = match actor_count_followers(db, &actor) {
        Ok(n) => n,
        Err(e) => {
            return Err(Reject::Custom(e));
        },
    };
    let followers = match actor_get_followers(db, &actor, page_number) {
        Ok(list) => list,
        Err(e) => {
            return Err(Reject::Custom(e));
        },
    };
    let ghost lo = page_start(page_number, all.len() as int);
    let ghost hi = page_end(page_number, all.len() as int);
    let mut actor_id_vec: Vec<String> = Vec::new();
    let mut i: usize = 0;
    proof {
        assert(actors_view(all).len() == all.len());
        assert(actors_view(followers@).len() == followers@.len());
        assert(texts_of(actor_id_vec@) =~= uris_of(all).subrange(lo, lo));
    }
    while i < followers.len()
        invariant
            i <= followers.len(),
            0 <= lo <= hi <= all.len(),
            followers@.len() == hi - lo,
            actors_view(followers@) == actors_view(all).subrange(lo, hi),
            texts_of(actor_id_vec@) == uris_of(all).subrange(lo, lo + i),
        decreases followers.len() - i,
    {
        let ghost before = actor_id_vec@;
        let uri = followers[i].uri.clone();
        actor_id_vec.push(uri);
        proof {
            assert(actors_view(followers@)[i as int] == followers@[i as int]@);
            assert(actors_view(all).subrange(lo, hi)[i as int] == all[lo + i]@);
            assert(texts_of(before.push(uri)) =~= texts_of(before).push(uri@));
            assert(uris_of(all).subrange(lo, lo + i + 1) =~= uris_of(all).subrange(
                lo,
                lo + i,
            ).push(all[lo + i].uri@));
        }
        i += 1;
    }
    let next = if paged_collection.has_next(total_items, PAGE_SIZE) {
        Some(make_page_address(domain, username, paged_collection.next_page_number()))
    } else {
        None
    };
    let prev = if paged_collection.has_prev() {
        Some(make_page_address(domain, username, paged_collection.prev_page_number()))
    } else {
        None
    };
    Ok(
        FollowersReply::Page(
            FollowersPage {
                kind: String::from_str("OrderedCollectionPage"),
                id: make_page_address(domain, username, page_number),
                next,
                prev,
                total_items,
                ordered_items: actor_id_vec,
            },
        ),
    )
}

} // verus!
