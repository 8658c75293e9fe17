use commune::db::actions::actor::insert_new_actor;
use commune::db::actions::follow::{
    actor_count_followers, actor_get_followers, follow_actor_by_uri, unfollow_actor_by_uri,
    PAGE_SIZE,
};
use commune::db::actions::user::create_user;
use commune::db::changes::{changes, snapshot, Snapshot};
use commune::db::models::actor::{Actor, ActorType, NewLocalActorBuilder};
use commune::db::models::UserActor;
use commune::db::Database;
use commune::errors::{ActionError, ActionResult};

const COMMON_PASSWORD: &str = "123456";

fn establish_connection() -> Database {
    Database::new()
}

fn create_user_fixture(conn: &mut Database, username: &str, domain: &str) -> UserActor {
    let email: String = format!("{}@{}.example.tld", username, domain);
    match create_user(conn, username, domain, COMMON_PASSWORD, email.as_str(), "und", None, 1000) {
        Ok(useractor) => useractor,
        Err(e) => panic!("error: {}", e.message()),
    }
}

#[test]
fn test_follow_actor_by_uri() -> ActionResult<()> {
    let mut conn = establish_connection();
    let user_actor1 = create_user_fixture(&mut conn, "misaka4e21", "test2.example.tld");
    let user_actor2 = create_user_fixture(&mut conn, "misaka4e22", "test1.example.tld");
    let follow = follow_actor_by_uri(
        &mut conn,
        "https://test2.example.tld/users/misaka4e21",
        "https://test1.example.tld/users/misaka4e22",
        2000,
    )?;
    assert_eq!(follow.follower_id, user_actor1.actor.id);
    assert_eq!(follow.following_id, user_actor2.actor.id);
    Ok(())
}

#[test]
fn test_actor_get_followers() -> ActionResult<()> {
    let mut conn = establish_connection();
    let user_actor1 = create_user_fixture(&mut conn, "misaka4e21", "test1.example.tld");
    let user_actor2 = create_user_fixture(&mut conn, "misaka4e22", "test1.example.tld");
    let _follow = follow_actor_by_uri(
        &mut conn,
        "https://test1.example.tld/users/misaka4e21",
        "https://test1.example.tld/users/misaka4e22",
        2000,
    )?;

    let followers_vec = actor_get_followers(&conn, &user_actor2.actor, 1)?;
    assert_eq!(followers_vec[0], user_actor1.actor);

    Ok(())
}

fn actor(db: &mut Database, username: &str, locked: bool) -> Actor {
    let mut new_actor = NewLocalActorBuilder {
        username,
        domain: "example.com",
        lang: "und",
        actor_type: ActorType::Person,
        public_key_pem: "KEY",
    }
    .build_at(1);
    new_actor.is_locked = locked;
    insert_new_actor(db, new_actor, 1).unwrap()
}

fn uri(username: &str) -> String {
    format!("https://example.com/users/{}", username)
}

#[test]
fn a_follow_is_pending_where_the_target_is_locked() {
    let mut db = Database::new();
    let alice = actor(&mut db, "alice", false);
    let bob = actor(&mut db, "bob", true);
    let to_locked = follow_actor_by_uri(&mut db, &uri("alice"), &uri("bob"), 10).unwrap();
    assert_eq!(to_locked.role, "pending");
    assert_eq!(to_locked.created_at, 10);
    assert_eq!(to_locked.updated_at, Some(10));
    let to_open = follow_actor_by_uri(&mut db, &uri("bob"), &uri("alice"), 11).unwrap();
    assert_eq!(to_open.role, "follower");
    assert_eq!(to_open.follower_id, bob.id);
    assert_eq!(to_open.following_id, alice.id);
    // a pending follow does not count
    assert_eq!(actor_count_followers(&db, &bob).unwrap(), 0);
    assert_eq!(actor_get_followers(&db, &bob, 1).unwrap(), vec![]);
    assert_eq!(actor_count_followers(&db, &alice).unwrap(), 1);
    assert_eq!(actor_get_followers(&db, &alice, 1).unwrap(), vec![bob.duplicate()]);
    assert_eq!(db.follows_len(), 2);
    // the newest edge stands first
    assert_eq!(*db.follow(0), to_open);
    assert_eq!(*db.follow(1), to_locked);
}

#[test]
fn a_follow_needs_both_actors_and_is_made_once() {
    let mut db = Database::new();
    actor(&mut db, "alice", false);
    actor(&mut db, "bob", false);
    assert_eq!(
        follow_actor_by_uri(&mut db, &uri("nobody"), &uri("bob"), 1).unwrap_err(),
        ActionError::NotFound
    );
    assert_eq!(
        follow_actor_by_uri(&mut db, &uri("alice"), &uri("nobody"), 1).unwrap_err(),
        ActionError::NotFound
    );
    follow_actor_by_uri(&mut db, &uri("alice"), &uri("bob"), 1).unwrap();
    assert_eq!(
        follow_actor_by_uri(&mut db, &uri("alice"), &uri("bob"), 2).unwrap_err(),
        ActionError::InsertError
    );
    assert_eq!(db.follows_len(), 1);
    // the other way round is another edge, and an actor may follow itself
    follow_actor_by_uri(&mut db, &uri("bob"), &uri("alice"), 2).unwrap();
    follow_actor_by_uri(&mut db, &uri("bob"), &uri("bob"), 2).unwrap();
    assert_eq!(db.follows_len(), 3);
}

#[test]
fn follow_then_undo_leaves_the_followers_as_they_were() {
    let mut db = Database::new();
    let alice = actor(&mut db, "alice", false);
    let bob = actor(&mut db, "bob", false);
    let carol = actor(&mut db, "carol", false);
    follow_actor_by_uri(&mut db, &uri("carol"), &uri("bob"), 5).unwrap();
    let before = actor_count_followers(&db, &bob).unwrap();
    assert_eq!(before, 1);
    follow_actor_by_uri(&mut db, &uri("alice"), &uri("bob"), 6).unwrap();
    assert_eq!(actor_count_followers(&db, &bob).unwrap(), 2);
    unfollow_actor_by_uri(&mut db, &uri("alice"), &uri("bob")).unwrap();
    assert_eq!(actor_count_followers(&db, &bob).unwrap(), before);
    assert_eq!(actor_get_followers(&db, &bob, 1).unwrap(), vec![carol.duplicate()]);
    assert_eq!(db.follows_len(), 1);
    // to undo what is not there is a success and changes nothing
    unfollow_actor_by_uri(&mut db, &uri("alice"), &uri("bob")).unwrap();
    assert_eq!(actor_count_followers(&db, &bob).unwrap(), before);
    assert_eq!(actor_count_followers(&db, &alice).unwrap(), 0);
    // to undo between actors that are not there is not
    assert_eq!(
        unfollow_actor_by_uri(&mut db, &uri("nobody"), &uri("bob")).unwrap_err(),
        ActionError::NotFound
    );
    assert_eq!(
        unfollow_actor_by_uri(&mut db, &uri("alice"), &uri("nobody")).unwrap_err(),
        ActionError::NotFound
    );
    // where the edge was there before the follow, the follow fails and the undo takes the edge
    assert_eq!(
        follow_actor_by_uri(&mut db, &uri("carol"), &uri("bob"), 7).unwrap_err(),
        ActionError::InsertError
    );
    unfollow_actor_by_uri(&mut db, &uri("carol"), &uri("bob")).unwrap();
    assert_eq!(actor_count_followers(&db, &bob).unwrap(), 0);
}

#[test]
fn followers_come_in_pages_of_twelve_from_the_newest() {
    assert_eq!(PAGE_SIZE, 12);
    let mut db = Database::new();
    let target = actor(&mut db, "target", false);
    let mut fans = Vec::new();
    for i in 0..30 {
        let name = format!("fan{}", i);
        fans.push(actor(&mut db, &name, false));
        // times that do not rise: 0, 1, 2, 0, 1, 2, ...
        follow_actor_by_uri(&mut db, &uri(&name), &uri("target"), (i % 3) as i64).unwrap();
    }
    assert_eq!(actor_count_followers(&db, &target).unwrap(), 30);
    // newest first; among edges of one time, the one that came last
    let mut expected: Vec<usize> = (0..30).collect();
    expected.sort_by(|a, b| (b % 3).cmp(&(a % 3)).then(b.cmp(a)));
    let expect = |from: usize, to: usize| -> Vec<Actor> {
        expected[from..to].iter().map(|i| fans[*i].duplicate()).collect()
    };
    assert_eq!(actor_get_followers(&db, &target, 1).unwrap(), expect(0, 12));
    assert_eq!(actor_get_followers(&db, &target, 2).unwrap(), expect(12, 24));
    assert_eq!(actor_get_followers(&db, &target, 3).unwrap(), expect(24, 30));
    assert_eq!(actor_get_followers(&db, &target, 4).unwrap(), vec![]);
    assert_eq!(actor_get_followers(&db, &target, i64::MAX).unwrap(), vec![]);
    assert_eq!(actor_get_followers(&db, &target, 0).unwrap_err(), ActionError::NotFound);
    assert_eq!(actor_get_followers(&db, &target, -3).unwrap_err(), ActionError::NotFound);
    assert_eq!(actor_get_followers(&db, &target, i64::MIN).unwrap_err(), ActionError::NotFound);
    for i in 1..db.follows_len() {
        assert!(db.follow(i - 1).created_at >= db.follow(i).created_at);
    }
}

#[test]
fn what_a_request_changed_in_the_store() {
    let mut db = Database::new();
    let alice = actor(&mut db, "alice", false);
    let bob = actor(&mut db, "bob", false);
    follow_actor_by_uri(&mut db, &uri("alice"), &uri("bob"), 5).unwrap();
    follow_actor_by_uri(&mut db, &uri("bob"), &uri("alice"), 6).unwrap();
    let before = snapshot(&db);
    assert_eq!(before.actors, 2);
    assert_eq!(before.users, 0);
    assert_eq!(before.edges, vec![(bob.id, alice.id), (alice.id, bob.id)]);
    let same = changes(&before, &db);
    assert!(same.actors.is_empty() && same.users.is_empty());
    assert!(same.follows.is_empty() && same.gone.is_empty());

    let carol = actor(&mut db, "carol", false);
    let made = create_user(&mut db, "dave", "example.com", "secret", "", "und", None, 9).unwrap();
    let newest = follow_actor_by_uri(&mut db, &uri("carol"), &uri("bob"), 7).unwrap();
    let oldest = follow_actor_by_uri(&mut db, &uri("carol"), &uri("alice"), 1).unwrap();
    unfollow_actor_by_uri(&mut db, &uri("alice"), &uri("bob")).unwrap();
    let changed = changes(&before, &db);
    assert_eq!(changed.actors, vec![carol.duplicate(), made.actor.duplicate()]);
    assert_eq!(changed.users, vec![made.user.duplicate()]);
    assert_eq!(changed.follows, vec![newest, oldest]);
    assert_eq!(changed.gone, vec![(alice.id, bob.id)]);
    // an edge that went and came again is neither new nor gone
    follow_actor_by_uri(&mut db, &uri("alice"), &uri("bob"), 8).unwrap();
    assert!(changes(&before, &db).gone.is_empty());
    assert_eq!(changes(&before, &db).follows.len(), 2);
    // a snapshot of a longer store finds no rows
    let longer = Snapshot { actors: 99, users: 99, edges: vec![] };
    let all = changes(&longer, &db);
    assert!(all.actors.is_empty() && all.users.is_empty());
    assert_eq!(all.follows.len(), db.follows_len());
}
