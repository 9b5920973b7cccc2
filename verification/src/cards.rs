//! Content cards: creation rules and search-result assembly.
//!
//! A card is accepted only with enough content; a near-duplicate is
//! detected against a similarity threshold that depends on the content's
//! length; and vector-search results are paired back to their stored
//! metadata by point identifier.
use crate::ids::{fresh_id, now_millis};
use vstd::prelude::*;

verus! {

/// The fewest space-separated segments a card's content may have.
pub const MIN_CARD_WORDS: u64 = 70;

/// A request to create a card.
#[derive(Debug, Clone, PartialEq)]
pub struct CreateCardData {
    pub content: String,
    pub card_html: Option<String>,
    pub link: Option<String>,
    pub oc_file_path: Option<String>,
}

/// A card search request.
#[derive(Debug, Clone, PartialEq)]
pub struct SearchCardData {
    pub content: String,
    pub filter_oc_file_path: Option<Vec<String>>,
    pub filter_link_url: Option<Vec<String>>,
}

/// One card's stored attributes.
#[derive(Debug, Clone, PartialEq)]
pub struct CardMetadata {
    pub id: u128,
    pub content: String,
    pub card_html: Option<String>,
    pub link: Option<String>,
    pub oc_file_path: Option<String>,
    pub author_id: u128,
    pub qdrant_point_id: u128,
    pub created_at: i64,
    pub updated_at: i64,
}

impl CardMetadata {
    /// A new card row with the given attributes, a fresh identifier and the
    /// clock's timestamps.
    pub fn from_details(
        content: String,
        card_html: Option<String>,
        link: Option<String>,
        oc_file_path: Option<String>,
        author_id: u128,
        qdrant_point_id: u128,
    ) -> (c: CardMetadata)
        ensures
            c.content@ == content@,
            c.card_html == card_html,
            c.link == link,
            c.oc_file_path == oc_file_path,
            c.author_id == author_id,
            c.qdrant_point_id == qdrant_point_id,
            c.created_at == c.updated_at,
    {
        let id = fresh_id();
        let now = now_millis();
        CardMetadata {
            id,
            content,
            card_html,
            link,
            oc_file_path,
            author_id,
            qdrant_point_id,
            created_at: now,
            updated_at: now,
        }
    }
}

/// The number of space-separated segments of a text: one more than its
/// count of space characters, as splitting on single spaces gives.
pub open spec fn sp_segments(s: Seq<char>) -> int
    decreases s.len(),
{
    if s.len() == 0 {
        1
    } else {
        sp_segments(s.drop_last()) + (
        if s.last() == ' ' {
            1int
        } else {
            0int
        })
    }
}

/// The number of space-separated segments of the content.
pub fn word_segment_count(content: &str) -> (n: u64)
    requires
        content@.len() < u64::MAX,
    ensures
        n as int == sp_segments(content@),
{
    let v = crate::text::chars_of(content);
    let mut n: u64 = 1;
    let mut i: usize = 0;
    while i < v.len()
        invariant
            i <= v@.len(),
            v@ == content@,
            content@.len() < u64::MAX,
            n as int == sp_segments(content@.subrange(0, i as int)),
            n <= i + 1,
        decreases v@.len() - i,
    {
        proof {
            assert(content@.subrange(0, i + 1).drop_last() =~= content@.subrange(0, i as int));
        }
        if v[i] == ' ' {
            n = n + 1;
        }
        i = i + 1;
    }
    proof {
        assert(content@.subrange(0, content@.len() as int) =~= content@);
    }
    n
}

/// Whether the content carries enough words for a card.
pub fn card_content_long_enough(content: &str) -> (r: bool)
    requires
        content@.len() < u64::MAX,
    ensures
        r == (sp_segments(content@) >= MIN_CARD_WORDS),
{
    word_segment_count(content) >= MIN_CARD_WORDS
}

/// The similarity threshold, in hundredths, above which a new card counts
/// as a duplicate of a found one: lower for short content.
pub fn duplicate_score_threshold_percent(content_byte_len: usize) -> (t: u64)
    ensures
        content_byte_len < 200 ==> t == 90,
        content_byte_len >= 200 ==> t == 95,
{
    if content_byte_len < 200 {
        90
    } else {
        95
    }
}

/// First index in `metas` of the card with the given point identifier.
pub open spec fn sp_meta_idx(metas: Seq<CardMetadata>, point_id: int, i: int) -> Option<int>
    decreases metas.len() - i,
{
    if !(0 <= i && i < metas.len()) {
        None
    } else if metas[i].qdrant_point_id as int == point_id {
        Some(i)
    } else {
        sp_meta_idx(metas, point_id, i + 1)
    }
}

/// For each searched point, the index of its stored metadata — the first
/// card with that point identifier; `None` when any point has no card.
pub fn pair_results_with_metadata(point_ids: &Vec<u128>, metas: &Vec<CardMetadata>) -> (r: Option<
    Vec<usize>,
>)
    ensures
        match r {
            Some(v) => v@.len() == point_ids@.len() && (forall|i: int|
                0 <= i < point_ids@.len() ==> sp_meta_idx(metas@, point_ids@[i] as int, 0)
                    == Some(#[trigger] v@[i] as int)),
            None => exists|i: int|
                0 <= i < point_ids@.len() && sp_meta_idx(
                    metas@,
                    #[trigger] point_ids@[i] as int,
                    0,
                ) is None,
        },
{
    let mut v: Vec<usize> = Vec::new();
    let mut i: usize = 0;
    while i < point_ids.len()
        invariant
            i <= point_ids@.len(),
            v@.len() == i,
            forall|j: int|
                0 <= j < i ==> sp_meta_idx(metas@, point_ids@[j] as int, 0) == Some(
                    #[trigger] v@[j] as int,
                ),
        decreases point_ids@.len() - i,
    {
        match find_meta(metas, point_ids[i]) {
            Some(u) => v.push(u),
            None => {
                return None;
            },
        }
        i = i + 1;
    }
    Some(v)
}

/// The first index of the card with the given point identifier.
fn find_meta(metas: &Vec<CardMetadata>, point_id: u128) -> (r: Option<usize>)
    ensures
        match r {
            Some(u) => sp_meta_idx(metas@, point_id as int, 0) == Some(u as int),
            None => sp_meta_idx(metas@, point_id as int, 0) is None,
        },
{
    let mut i: usize = 0;
    while i < metas.len() && metas[i].qdrant_point_id != point_id
        invariant
            i <= metas@.len(),
            sp_meta_idx(metas@, point_id as int, 0) == sp_meta_idx(metas@, point_id as int, i as int),
        decreases metas@.len() - i,
    {
        i = i + 1;
    }
    if i == metas.len() {
        None
    } else {
        Some(i)
    }
}

} // verus!
