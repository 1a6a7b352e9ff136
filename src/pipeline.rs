use vstd::prelude::*;

use crate::collection::{model_describe, CollectionParams, StoreModel};
use crate::error::PipelineError;
use crate::record::Attribute;

verus! {

/// A point of the vector store: its id, its embedding and its attributes.
#[derive(Debug)]
pub struct Point<V> {
    pub id: u64,
    pub vector: Vec<V>,
    pub attributes: Vec<Attribute>,
}

/// Each point's id is its position.
pub open spec fn numbered<V>(pts: Seq<Point<V>>) -> bool {
    forall|i: int| 0 <= i < pts.len() ==> (#[trigger] pts[i]).id == i
}

/// The ids of a batch of points, in order.
pub open spec fn point_ids<V>(pts: Seq<Point<V>>) -> Seq<u64> {
    pts.map_values(|p: Point<V>| p.id)
}

/// Collects the points of a dataset, one per record in the dataset's order, each with
/// its record's position as id.
pub struct Populator<V> {
    points: Vec<Point<V>>,
}

impl<V> View for Populator<V> {
    type V = Seq<Point<V>>;

    closed spec fn view(&self) -> Seq<Point<V>> {
        self.points@
    }
}

impl<V> Populator<V> {
    pub closed spec fn wf(&self) -> bool {
        numbered(self.points@)
    }

    pub fn new() -> (r: Self)
        ensures
            r.wf(),
            r@ == Seq::<Point<V>>::empty(),
    {
        Populator { points: Vec::new() }
    }

    /// The number of points collected so far, which is the id of the next one.
    pub fn len(&self) -> (r: usize)
        ensures
            r == self@.len(),
    {
        self.points.len()
    }

    /// Adds the point of the next record.
    pub fn add(&mut self, vector: Vec<V>, attributes: Vec<Attribute>)
        requires
            old(self).wf(),
            old(self)@.len() < u64::MAX,
        ensures
            final(self).wf(),
            final(self)@ == old(self)@.push(
                Point { id: old(self)@.len() as u64, vector, attributes },
            ),
    {
        let id = self.points.len() as u64;
        self.points.push(Point { id, vector, attributes });
        assert(numbered(self.points@)) by {
            assert forall|i: int| 0 <= i < self.points@.len() implies (
            #[trigger] self.points@[i]).id == i by {
                if i < self.points@.len() - 1 {
                    assert(self.points@[i] == old(self).points@[i]);
                }
            }
        }
    }

    /// The batch to upsert.
    pub fn into_points(self) -> (r: Vec<Point<V>>)
        requires
            self.wf(),
        ensures
            r@ == self@,
            numbered(r@),
    {
        self.points
    }
}

/// Takes the vector out of an embedding response: the last one it holds.
pub fn take_embedding<V>(data: Vec<Vec<V>>) -> (r: Result<Vec<V>, PipelineError>)
    ensures
        data@.len() == 0 <==> r == Err::<Vec<V>, PipelineError>(PipelineError::EmbeddingError),
        data@.len() > 0 ==> r == Ok::<Vec<V>, PipelineError>(data@.last()),
{
    let mut data = data;
    match data.pop() {
        Some(v) => Ok(v),
        None => Err(PipelineError::EmbeddingError),
    }
}

/// A top-1 nearest-neighbour search, with the attributes of the match requested.
#[derive(Debug)]
pub struct SearchRequest<V> {
    pub vector: Vec<V>,
    pub limit: u64,
    pub with_payload: bool,
}

/// The search for `query` in a collection made with `params`; a vector of another
/// length is refused rather than cut or padded.
pub fn search_request<V>(query: Vec<V>, params: &CollectionParams) -> (r: Result<
    SearchRequest<V>,
    PipelineError,
>)
    ensures
        query@.len() != params.size <==> r == Err::<SearchRequest<V>, PipelineError>(
            PipelineError::DimensionMismatch,
        ),
        query@.len() == params.size ==> r is Ok,
        r matches Ok(q) ==> q.vector == query && q.limit == 1 && q.with_payload,
{
    if query.len() as u128 != params.size as u128 {
        Err(PipelineError::DimensionMismatch)
    } else {
        Ok(SearchRequest { vector: query, limit: 1, with_payload: true })
    }
}

/// One match of a search, in the store's ranking.
#[derive(Debug)]
pub struct SearchHit {
    pub id: u64,
    pub attributes: Vec<Attribute>,
}

/// What resolving a query yields from the store's ranked matches: the best one's attributes.
pub open spec fn spec_best_match(hits: Seq<SearchHit>) -> Result<Vec<Attribute>, PipelineError> {
    if hits.len() == 0 {
        Err(PipelineError::EmptyResult)
    } else {
        Ok(hits[0].attributes)
    }
}

/// The attributes of the best match, or `EmptyResult` where there is none.
pub fn best_match(hits: Vec<SearchHit>) -> (r: Result<Vec<Attribute>, PipelineError>)
    ensures
        r == spec_best_match(hits@),
{
    let mut hits = hits;
    if hits.len() == 0 {
        Err(PipelineError::EmptyResult)
    } else {
        let best = hits.swap_remove(0);
        Ok(best.attributes)
    }
}

/// The store after upserting points with the given ids; a missing collection takes nothing.
pub open spec fn model_upsert(s: StoreModel, ids: Seq<u64>) -> StoreModel {
    match s.points {
        Some(p) => StoreModel { points: Some(p + ids.to_set()), ..s },
        None => s,
    }
}

/// After the points of a dataset are upserted into an empty collection, the collection
/// holds exactly as many points as the dataset has records, and a describe request that
/// succeeds reports that count.
pub proof fn lemma_populate_count<V>(s: StoreModel, pts: Seq<Point<V>>)
    requires
        s.points == Some(Set::<u64>::empty()),
        numbered(pts),
    ensures
        model_upsert(s, point_ids(pts)).points matches Some(p) && p.len() == pts.len(),
        s.describe_works ==> model_describe(model_upsert(s, point_ids(pts))) == Some(
            pts.len() as u64,
        ),
{
    let ids = point_ids(pts);
    assert(ids.no_duplicates()) by {
        assert forall|i: int, j: int|
            0 <= i < ids.len() && 0 <= j < ids.len() && i != j implies ids[i] != ids[j] by {
            assert(pts[i].id == i && pts[j].id == j);
        }
    }
    ids.unique_seq_to_set();
    assert(Set::<u64>::empty() + ids.to_set() =~= ids.to_set());
}

/// A search only returns points of the collection, so on an empty collection resolving
/// any query ends in `EmptyResult`.
pub proof fn lemma_resolve_empty_collection(s: StoreModel, hits: Seq<SearchHit>)
    requires
        s.points == Some(Set::<u64>::empty()),
        forall|i: int| 0 <= i < hits.len() ==> s.points->0.contains(#[trigger] hits[i].id),
    ensures
        spec_best_match(hits) == Err::<Vec<Attribute>, PipelineError>(PipelineError::EmptyResult),
{
    if hits.len() > 0 {
        assert(s.points->0.contains(hits[0].id));
    }
}

/// The store's answer to a top-1 search for `query` over `pts`, under the similarity `sim`:
/// no hit only on an empty collection, else first a point of greatest similarity.
pub open spec fn ranked_first<V>(
    pts: Seq<Point<V>>,
    hits: Seq<SearchHit>,
    query: Seq<V>,
    sim: spec_fn(Seq<V>, Seq<V>) -> int,
) -> bool {
    &&& (hits.len() == 0 <==> pts.len() == 0)
    &&& hits.len() > 0 ==> exists|m: int|
        0 <= m < pts.len() && hits[0].id == pts[m].id && hits[0].attributes == pts[m].attributes
            && forall|j: int| 0 <= j < pts.len() ==> sim(query, #[trigger] pts[j].vector@) <= sim(
            query,
            pts[m].vector@,
        )
}

/// Resolving a query returns the attributes of the stored point most similar to it, where
/// that point is strictly more similar than every other one and the store ranks by that
/// similarity.
pub proof fn lemma_resolve_nearest<V>(
    pts: Seq<Point<V>>,
    hits: Seq<SearchHit>,
    query: Seq<V>,
    k: int,
    sim: spec_fn(Seq<V>, Seq<V>) -> int,
)
    requires
        0 <= k < pts.len(),
        ranked_first(pts, hits, query, sim),
        forall|j: int|
            0 <= j < pts.len() && j != k ==> sim(query, #[trigger] pts[j].vector@) < sim(
                query,
                pts[k].vector@,
            ),
    ensures
        spec_best_match(hits) == Ok::<Vec<Attribute>, PipelineError>(pts[k].attributes),
{
    let m = choose|m: int|
        0 <= m < pts.len() && hits[0].id == pts[m].id && hits[0].attributes == pts[m].attributes
            && forall|j: int| 0 <= j < pts.len() ==> sim(query, #[trigger] pts[j].vector@) <= sim(
            query,
            pts[m].vector@,
        );
    assert(sim(query, pts[k].vector@) <= sim(query, pts[m].vector@));
    assert(m == k);
}

/// Resolving the embedding of a stored point returns that point's attributes, where the
/// store ranks by a similarity under which every other stored vector is less similar to
/// the query than the query is to itself.
pub proof fn lemma_resolve_self_match<V>(
    pts: Seq<Point<V>>,
    hits: Seq<SearchHit>,
    k: int,
    sim: spec_fn(Seq<V>, Seq<V>) -> int,
)
    requires
        0 <= k < pts.len(),
        ranked_first(pts, hits, pts[k].vector@, sim),
        forall|j: int|
            0 <= j < pts.len() && j != k ==> sim(pts[k].vector@, #[trigger] pts[j].vector@) < sim(
                pts[k].vector@,
                pts[k].vector@,
            ),
    ensures
        spec_best_match(hits) == Ok::<Vec<Attribute>, PipelineError>(pts[k].attributes),
{
    lemma_resolve_nearest(pts, hits, pts[k].vector@, k, sim);
}

/// Whether a collection with `point_count` points has to be filled from its dataset first:
/// only an empty one is.
pub fn needs_population(point_count: u64) -> (r: bool)
    ensures
        r == (point_count == 0),
{
    point_count == 0
}

/// The instruction that frames a chat request: the grounding context where there is one.
pub fn system_instruction(context: Option<&str>) -> (r: &str)
    ensures
        context matches Some(c) ==> r@ == c@,
        context is None ==> r@ == "Answer concisely as possible"@,
{
    match context {
        Some(c) => c,
        None => "Answer concisely as possible",
    }
}

/// The content of the first choice that has one.
pub open spec fn first_content(contents: Seq<Option<String>>) -> Option<Seq<char>>
    decreases contents.len(),
{
    if contents.len() == 0 {
        None
    } else {
        match contents[0] {
            Some(c) => Some(c@),
            None => first_content(contents.drop_first()),
        }
    }
}

/// The reply to return from a chat response, given each choice's content in order: the
/// first content given, unless it is empty.
pub open spec fn spec_pick_answer(contents: Seq<Option<String>>) -> Option<Seq<char>> {
    match first_content(contents) {
        Some(t) if t.len() > 0 => Some(t),
        _ => None,
    }
}

/// The first reply among the choices; `NoAnswer` where no choice has content or the first
/// content is empty.
pub fn pick_answer(contents: Vec<Option<String>>) -> (r: Result<String, PipelineError>)
    ensures
        spec_pick_answer(contents@) is None <==> r == Err::<String, PipelineError>(
            PipelineError::NoAnswer,
        ),
        spec_pick_answer(contents@) matches Some(a) ==> (r matches Ok(s) && s@ == a),
{
    let mut rest = contents;
    while rest.len() > 0
        invariant
            first_content(rest@) == first_content(contents@),
        decreases rest@.len(),
    {
        let ghost before = rest@;
        let c = rest.remove(0);
        assert(rest@ =~= before.drop_first());
        match c {
            Some(c) => {
                if c.as_str().unicode_len() > 0 {
                    return Ok(c);
                } else {
                    return Err(PipelineError::NoAnswer);
                }
            },
            None => {},
        }
    }
    Err(PipelineError::NoAnswer)
}

} // verus!
