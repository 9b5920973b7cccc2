//! User accounts and their derived read models: vote tallies over a user's
//! cards, the top-user listing, and profile updates.
//!
//! The relational store supplies rows; the functions here hold the rules:
//! how votes are counted, how an email is hidden unless the user chose to
//! show it, when a username change conflicts, and how score rows are joined
//! back to their users.
use crate::cards::CardMetadata;
use crate::ids::{fresh_id, now_millis};
use vstd::prelude::*;

verus! {

/// A user account row.
#[derive(Debug, Clone, PartialEq)]
pub struct User {
    pub id: u128,
    pub email: String,
    pub hash: String,
    pub username: Option<String>,
    pub website: Option<String>,
    pub visible_email: bool,
    pub created_at: i64,
    pub updated_at: i64,
}

impl User {
    /// A new account for the given email and password hash, with a fresh
    /// identifier and the clock's timestamps.
    pub fn from_details(email: String, pwd: String) -> (u: User)
        ensures
            u.email@ == email@,
            u.hash@ == pwd@,
            u.username is None,
            u.website is None,
            !u.visible_email,
            u.created_at == u.updated_at,
    {
        let id = fresh_id();
        let now = now_millis();
        User {
            id,
            email,
            hash: pwd,
            username: None,
            website: None,
            visible_email: false,
            created_at: now,
            updated_at: now,
        }
    }
}

/// The public projection of a user.
#[derive(Debug, Clone, PartialEq)]
pub struct SlimUser {
    pub email: String,
}

impl From<User> for SlimUser {
    fn from(user: User) -> (r: SlimUser) {
        SlimUser { email: user.email }
    }
}

impl vstd::std_specs::convert::FromSpecImpl<User> for SlimUser {
    open spec fn obeys_from_spec() -> bool {
        true
    }

    open spec fn from_spec(user: User) -> SlimUser {
        SlimUser { email: user.email }
    }
}

/// One vote on a card.
#[derive(Debug, Clone, Copy, PartialEq)]
pub struct CardVote {
    pub card_metadata_id: u128,
    pub voted_user_id: u128,
    pub vote: bool,
}

/// A card together with its vote tallies.
#[derive(Debug, Clone, PartialEq)]
pub struct CardWithVotes {
    pub id: u128,
    pub content: String,
    pub link: Option<String>,
    pub qdrant_point_id: u128,
    pub total_upvotes: i64,
    pub total_downvotes: i64,
    pub created_at: i64,
    pub updated_at: i64,
}

/// How many of the votes fall on the given card with the given direction.
pub open spec fn sp_vote_count(votes: Seq<CardVote>, card_id: int, up: bool) -> int
    decreases votes.len(),
{
    if votes.len() == 0 {
        0
    } else {
        sp_vote_count(votes.drop_last(), card_id, up) + (
        if votes.last().card_metadata_id as int == card_id && votes.last().vote == up {
            1int
        } else {
            0int
        })
    }
}

/// Vote counts never exceed the number of votes.
pub proof fn lemma_vote_count_bound(votes: Seq<CardVote>, card_id: int, up: bool)
    ensures
        0 <= sp_vote_count(votes, card_id, up) <= votes.len(),
    decreases votes.len(),
{
    if votes.len() > 0 {
        lemma_vote_count_bound(votes.drop_last(), card_id, up);
    }
}

/// The number of votes on the card in the given direction.
pub fn count_votes(votes: &Vec<CardVote>, card_id: u128, up: bool) -> (n: u64)
    requires
        votes@.len() <= u64::MAX,
    ensures
        n as int == sp_vote_count(votes@, card_id as int, up),
{
    let mut n: u64 = 0;
    let mut i: usize = 0;
    while i < votes.len()
        invariant
            i <= votes@.len() <= u64::MAX,
            n as int == sp_vote_count(votes@.subrange(0, i as int), card_id as int, up),
            n <= i,
        decreases votes@.len() - i,
    {
        proof {
            lemma_vote_count_bound(votes@.subrange(0, i as int), card_id as int, up);
            assert(votes@.subrange(0, i + 1).drop_last() =~= votes@.subrange(0, i as int));
        }
        let v = &votes[i];
        if v.card_metadata_id == card_id && v.vote == up {
            n = n + 1;
        }
        i = i + 1;
    }
    proof {
        assert(votes@.subrange(0, votes@.len() as int) =~= votes@);
    }
    n
}

/// Each card of the list, joined with its up- and downvote tallies over
/// the given votes.
pub fn aggregate_user_cards(metadatas: &Vec<CardMetadata>, votes: &Vec<CardVote>) -> (r: Vec<
    CardWithVotes,
>)
    requires
        votes@.len() <= i64::MAX,
    ensures
        r@.len() == metadatas@.len(),
        forall|i: int|
            0 <= i < metadatas@.len() ==> {
                let m = metadatas@[i];
                let c = #[trigger] r@[i];
                &&& c.id == m.id
                &&& c.content@ == m.content@
                &&& c.link == m.link
                &&& c.qdrant_point_id == m.qdrant_point_id
                &&& c.created_at == m.created_at
                &&& c.updated_at == m.updated_at
                &&& c.total_upvotes == sp_vote_count(votes@, m.id as int, true)
                &&& c.total_downvotes == sp_vote_count(votes@, m.id as int, false)
            },
{
    let mut r: Vec<CardWithVotes> = Vec::new();
    let mut i: usize = 0;
    while i < metadatas.len()
        invariant
            i <= metadatas@.len(),
            votes@.len() <= i64::MAX,
            r@.len() == i,
            forall|j: int|
                0 <= j < i ==> {
                    let m = metadatas@[j];
                    let c = #[trigger] r@[j];
                    &&& c.id == m.id
                    &&& c.content@ == m.content@
                    &&& c.link == m.link
                    &&& c.qdrant_point_id == m.qdrant_point_id
                    &&& c.created_at == m.created_at
                    &&& c.updated_at == m.updated_at
                    &&& c.total_upvotes == sp_vote_count(votes@, m.id as int, true)
                    &&& c.total_downvotes == sp_vote_count(votes@, m.id as int, false)
                },
        decreases metadatas@.len() - i,
    {
        let m = &metadatas[i];
        proof {
            lemma_vote_count_bound(votes@, m.id as int, true);
            lemma_vote_count_bound(votes@, m.id as int, false);
        }
        let up = count_votes(votes, m.id, true);
        let down = count_votes(votes, m.id, false);
        r.push(
            CardWithVotes {
                id: m.id,
                content: m.content.clone(),
                link: m.link.clone(),
                qdrant_point_id: m.qdrant_point_id,
                total_upvotes: up as i64,
                total_downvotes: down as i64,
                created_at: m.created_at,
                updated_at: m.updated_at,
            },
        );
        i = i + 1;
    }
    r
}

/// The email to publish for a user: the address exactly when the user made
/// it visible.
pub fn visible_email_of(user: &User) -> (r: Option<String>)
    ensures
        user.visible_email ==> (r matches Some(e) && e@ == user.email@),
        !user.visible_email ==> r is None,
{
    if user.visible_email {
        Some(user.email.clone())
    } else {
        None
    }
}

/// A user's profile with vote totals and cards.
#[derive(Debug, Clone, PartialEq)]
pub struct UserWithVotesAndCards {
    pub id: u128,
    pub email: Option<String>,
    pub username: Option<String>,
    pub website: Option<String>,
    pub visible_email: bool,
    pub created_at: i64,
    pub cards: Vec<CardWithVotes>,
    pub total_upvotes_received: i64,
    pub total_downvotes_received: i64,
    pub total_votes_cast: i64,
}

/// The profile read model of a user: cards with their tallies over
/// `card_votes`, totals received over `received_votes` (the votes on the
/// user's cards), the given cast total, and the email only when visible.
pub fn assemble_user_profile(
    user: &User,
    metadatas: &Vec<CardMetadata>,
    card_votes: &Vec<CardVote>,
    received_votes: &Vec<CardVote>,
    total_votes_cast: i64,
) -> (r: UserWithVotesAndCards)
    requires
        card_votes@.len() <= i64::MAX,
        received_votes@.len() <= i64::MAX,
    ensures
        r.id == user.id,
        r.username == user.username,
        r.website == user.website,
        r.visible_email == user.visible_email,
        r.created_at == user.created_at,
        user.visible_email ==> (r.email matches Some(e) && e@ == user.email@),
        !user.visible_email ==> r.email is None,
        r.cards@.len() == metadatas@.len(),
        forall|i: int|
            0 <= i < metadatas@.len() ==> #[trigger] r.cards@[i].total_upvotes == sp_vote_count(
                card_votes@,
                metadatas@[i].id as int,
                true,
            ) && r.cards@[i].total_downvotes == sp_vote_count(
                card_votes@,
                metadatas@[i].id as int,
                false,
            ) && r.cards@[i].id == metadatas@[i].id,
        r.total_upvotes_received == sp_tally(received_votes@, true),
        r.total_downvotes_received == sp_tally(received_votes@, false),
        r.total_votes_cast == total_votes_cast,
{
    let cards = aggregate_user_cards(metadatas, card_votes);
    let (up, down) = tally_votes(received_votes);
    UserWithVotesAndCards {
        id: user.id,
        email: visible_email_of(user),
        username: user.username.clone(),
        website: user.website.clone(),
        visible_email: user.visible_email,
        created_at: user.created_at,
        cards,
        total_upvotes_received: up,
        total_downvotes_received: down,
        total_votes_cast,
    }
}

/// How many of the votes go in the given direction.
pub open spec fn sp_tally(votes: Seq<CardVote>, up: bool) -> int
    decreases votes.len(),
{
    if votes.len() == 0 {
        0
    } else {
        sp_tally(votes.drop_last(), up) + (
        if votes.last().vote == up {
            1int
        } else {
            0int
        })
    }
}

/// Tallies never exceed the number of votes.
pub proof fn lemma_tally_bound(votes: Seq<CardVote>, up: bool)
    ensures
        0 <= sp_tally(votes, up) <= votes.len(),
    decreases votes.len(),
{
    if votes.len() > 0 {
        lemma_tally_bound(votes.drop_last(), up);
    }
}

/// The up- and downvote totals of a vote list.
pub fn tally_votes(votes: &Vec<CardVote>) -> (r: (i64, i64))
    requires
        votes@.len() <= i64::MAX,
    ensures
        r.0 == sp_tally(votes@, true),
        r.1 == sp_tally(votes@, false),
{
    let mut up: i64 = 0;
    let mut down: i64 = 0;
    let mut i: usize = 0;
    while i < votes.len()
        invariant
            i <= votes@.len() <= i64::MAX,
            up == sp_tally(votes@.subrange(0, i as int), true),
            down == sp_tally(votes@.subrange(0, i as int), false),
            0 <= up <= i,
            0 <= down <= i,
        decreases votes@.len() - i,
    {
        proof {
            assert(votes@.subrange(0, i + 1).drop_last() =~= votes@.subrange(0, i as int));
        }
        if votes[i].vote {
            up = up + 1;
        } else {
            down = down + 1;
        }
        i = i + 1;
    }
    proof {
        assert(votes@.subrange(0, votes@.len() as int) =~= votes@);
    }
    (up, down)
}

/// One row of the top-user scoring query.
#[derive(Debug, Clone, Copy, PartialEq)]
pub struct UserScore {
    pub author_id: u128,
    pub score: i64,
}

/// A user as listed among the top users.
#[derive(Debug, Clone, PartialEq)]
pub struct UserWithScore {
    pub id: u128,
    pub email: Option<String>,
    pub username: Option<String>,
    pub website: Option<String>,
    pub visible_email: bool,
    pub created_at: i64,
    pub score: i64,
}

/// First index in `users` of the user with the given identifier.
pub open spec fn sp_user_idx(users: Seq<User>, id: int, i: int) -> Option<int>
    decreases users.len() - i,
{
    if !(0 <= i && i < users.len()) {
        None
    } else if users[i].id as int == id {
        Some(i)
    } else {
        sp_user_idx(users, id, i + 1)
    }
}

/// Each score row joined with its user, in score order; `None` when a row's
/// user is missing from `users`.
pub fn join_scores_with_users(scores: &Vec<UserScore>, users: &Vec<User>) -> (r: Option<Vec<
    UserWithScore,
>>)
    ensures
        match r {
            Some(v) => {
                &&& v@.len() == scores@.len()
                &&& forall|i: int|
                    0 <= i < scores@.len() ==> {
                        let row = #[trigger] v@[i];
                        &&& row.id == scores@[i].author_id
                        &&& row.score == scores@[i].score
                        &&& sp_user_idx(users@, scores@[i].author_id as int, 0) matches Some(u)
                            && {
                            &&& row.username == users@[u].username
                            &&& row.website == users@[u].website
                            &&& row.visible_email == users@[u].visible_email
                            &&& row.created_at == users@[u].created_at
                            &&& (users@[u].visible_email ==> (row.email matches Some(e) && e@
                                == users@[u].email@))
                            &&& (!users@[u].visible_email ==> row.email is None)
                        }
                    }
            },
            None => exists|i: int|
                0 <= i < scores@.len() && sp_user_idx(
                    users@,
                    #[trigger] scores@[i].author_id as int,
                    0,
                ) is None,
        },
{
    let mut v: Vec<UserWithScore> = Vec::new();
    let mut i: usize = 0;
    while i < scores.len()
        invariant
            i <= scores@.len(),
            v@.len() == i,
            forall|j: int|
                0 <= j < i ==> {
                    let row = #[trigger] v@[j];
                    &&& row.id == scores@[j].author_id
                    &&& row.score == scores@[j].score
                    &&& sp_user_idx(users@, scores@[j].author_id as int, 0) matches Some(u) && {
                        &&& row.username == users@[u].username
                        &&& row.website == users@[u].website
                        &&& row.visible_email == users@[u].visible_email
                        &&& row.created_at == users@[u].created_at
                        &&& (users@[u].visible_email ==> (row.email matches Some(e) && e@
                            == users@[u].email@))
                        &&& (!users@[u].visible_email ==> row.email is None)
                    }
                },
        decreases scores@.len() - i,
    {
        let score = &scores[i];
        match find_user(users, score.author_id) {
            Some(u) => {
                let user = &users[u];
                v.push(
                    UserWithScore {
                        id: score.author_id,
                        email: visible_email_of(user),
                        username: user.username.clone(),
                        website: user.website.clone(),
                        visible_email: user.visible_email,
                        created_at: user.created_at,
                        score: score.score,
                    },
                );
            },
            None => {
                return None;
            },
        }
        i = i + 1;
    }
    Some(v)
}

/// The first index of the user with the given identifier.
fn find_user(users: &Vec<User>, id: u128) -> (r: Option<usize>)
    ensures
        match r {
            Some(u) => sp_user_idx(users@, id as int, 0) == Some(u as int) && u < users@.len()
                && users@[u as int].id == id,
            None => sp_user_idx(users@, id as int, 0) is None,
        },
{
    let mut i: usize = 0;
    while i < users.len() && users[i].id != id
        invariant
            i <= users@.len(),
            sp_user_idx(users@, id as int, 0) == sp_user_idx(users@, id as int, i as int),
        decreases users@.len() - i,
    {
        i = i + 1;
    }
    if i == users.len() {
        None
    } else {
        Some(i)
    }
}

/// A requested profile field, with the empty string standing for clearing
/// the field.
pub fn normalize_profile_field(requested: Option<String>) -> (r: Option<String>)
    ensures
        match requested {
            Some(t) => (t@.len() == 0 ==> r is None) && (t@.len() > 0 ==> (r matches Some(x) && x@
                == t@)),
            None => r is None,
        },
{
    match requested {
        Some(t) => {
            if t.as_str().unicode_len() == 0 {
                None
            } else {
                Some(t)
            }
        },
        None => None,
    }
}

/// Whether a requested username collides with the account found under that
/// name: it does unless the found account already carries exactly that
/// username.
pub fn username_conflict(requested: &String, found: &Option<User>) -> (r: bool)
    ensures
        match found {
            Some(u) => r == !(u.username matches Some(n) && n@ == requested@),
            None => !r,
        },
{
    match found {
        Some(u) => match &u.username {
            Some(n) => !crate::text::strings_eq(n.as_str(), requested.as_str()),
            None => true,
        },
        None => false,
    }
}

/// The looked-up user, or the report that none was found.
pub fn require_found(found: Option<User>) -> (r: Result<User, String>)
    ensures
        match found {
            Some(u) => r matches Ok(u2) && u2 == u,
            None => r matches Err(e) && e@ == "User not found"@,
        },
{
    match found {
        Some(u) => Ok(u),
        None => Err("User not found".to_owned()),
    }
}

} // verus!
