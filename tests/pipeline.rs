use aidevs::collection::{
    default_params, ensure_start, ensure_step, Distance, EnsureNext, Ensuring, StoreReply,
    VECTOR_SIZE,
};
use aidevs::error::PipelineError;
use aidevs::pipeline::{
    best_match, pick_answer, search_request, system_instruction, take_embedding, Point,
    Populator, SearchHit,
};
use aidevs::record::{get_attribute, AttrValue, Attribute, NewsItem};

/// An in-memory collection that ranks points by cosine similarity.
struct FakeStore {
    points: Option<Vec<Point<f32>>>,
    describe_works: bool,
    create_works: bool,
    creates: usize,
    describes: usize,
}

impl FakeStore {
    fn new(describe_works: bool) -> Self {
        FakeStore { points: None, describe_works, create_works: true, creates: 0, describes: 0 }
    }

    fn describe(&mut self) -> Option<u64> {
        self.describes += 1;
        match &self.points {
            Some(p) if self.describe_works => Some(p.len() as u64),
            _ => None,
        }
    }

    fn create(&mut self) -> bool {
        self.creates += 1;
        if self.create_works && self.points.is_none() {
            self.points = Some(Vec::new());
            true
        } else {
            false
        }
    }

    fn upsert(&mut self, batch: Vec<Point<f32>>) {
        let points = self.points.as_mut().expect("collection exists");
        for p in batch {
            points.retain(|q| q.id != p.id);
            points.push(p);
        }
    }

    fn search(&self, vector: &[f32], limit: u64) -> Vec<SearchHit> {
        let cosine = |a: &[f32], b: &[f32]| {
            let dot: f32 = a.iter().zip(b).map(|(x, y)| x * y).sum();
            let na: f32 = a.iter().map(|x| x * x).sum::<f32>().sqrt();
            let nb: f32 = b.iter().map(|x| x * x).sum::<f32>().sqrt();
            dot / (na * nb)
        };
        let mut scored: Vec<(f32, &Point<f32>)> = self
            .points
            .iter()
            .flatten()
            .map(|p| (cosine(vector, &p.vector), p))
            .collect();
        scored.sort_by(|a, b| b.0.partial_cmp(&a.0).unwrap());
        scored
            .into_iter()
            .take(limit as usize)
            .map(|(_, p)| SearchHit { id: p.id, attributes: p.attributes.clone() })
            .collect()
    }
}

/// Runs the collection lifecycle against the fake store.
fn ensure_collection(store: &mut FakeStore) -> Result<u64, PipelineError> {
    let mut next = ensure_start();
    loop {
        next = match next {
            EnsureNext::Describe(phase) => ensure_step(phase, StoreReply::Described(store.describe())),
            EnsureNext::Create(phase, params) => {
                assert_eq!(params.size, VECTOR_SIZE);
                ensure_step(phase, StoreReply::Created(store.create()))
            }
            EnsureNext::Done(r) => return r,
        };
    }
}

/// A vector of the collection's size pointing mostly along axis `axis`.
fn embedding_along(axis: usize, tilt: f32) -> Vec<f32> {
    let mut v = vec![0.0f32; VECTOR_SIZE as usize];
    v[axis] = 1.0;
    v[(axis + 1) % VECTOR_SIZE as usize] = tilt;
    v
}

fn fake_embed(text: &str) -> Vec<Vec<f32>> {
    if text.starts_with("Alpha") {
        vec![embedding_along(0, 0.0)]
    } else {
        vec![embedding_along(5, 0.0)]
    }
}

fn news(info: &str, url: &str) -> NewsItem {
    NewsItem {
        title: format!("title of {info}"),
        url: url.to_string(),
        info: info.to_string(),
        date: "2023-11-01".to_string(),
    }
}

fn populate(store: &mut FakeStore, items: Vec<NewsItem>) -> Result<(), PipelineError> {
    let mut populator = Populator::new();
    for item in items {
        let vector = take_embedding(fake_embed(&item.carrier_text()))?;
        populator.add(vector, item.into_attributes());
    }
    store.upsert(populator.into_points());
    Ok(())
}

fn resolve(store: &FakeStore, query: Vec<f32>) -> Result<Vec<Attribute>, PipelineError> {
    let request = search_request(query, &default_params())?;
    best_match(store.search(&request.vector, request.limit))
}

fn text_of(attrs: &Vec<Attribute>, key: &str) -> String {
    match get_attribute(attrs, key) {
        Some(AttrValue::Str(s)) => s.clone(),
        other => panic!("no text under {key}: {other:?}"),
    }
}

#[test]
fn nearest_item_of_two_record_dataset_gives_its_url() {
    let mut store = FakeStore::new(true);
    assert_eq!(ensure_collection(&mut store), Ok(0));
    populate(&mut store, vec![news("Alpha text", "http://a"), news("Beta text", "http://b")])
        .unwrap();
    let attrs = resolve(&store, embedding_along(0, 0.2)).unwrap();
    assert_eq!(text_of(&attrs, "url"), "http://a");
}

#[test]
fn populated_collection_counts_every_record() {
    let mut store = FakeStore::new(true);
    assert_eq!(ensure_collection(&mut store), Ok(0));
    let items: Vec<NewsItem> =
        (0..5).map(|i| news(&format!("Item {i}"), &format!("http://{i}"))).collect();
    populate(&mut store, items).unwrap();
    assert_eq!(ensure_collection(&mut store), Ok(5));
}

#[test]
fn populator_numbers_points_by_position() {
    let mut populator: Populator<f32> = Populator::new();
    for i in 0..3 {
        populator.add(vec![i as f32], vec![]);
    }
    assert_eq!(populator.len(), 3);
    let points = populator.into_points();
    let ids: Vec<u64> = points.iter().map(|p| p.id).collect();
    assert_eq!(ids, vec![0, 1, 2]);
    assert_eq!(points[2].vector, vec![2.0]);
}

#[test]
fn stored_embedding_finds_its_own_point() {
    let mut store = FakeStore::new(true);
    ensure_collection(&mut store).unwrap();
    populate(&mut store, vec![news("Alpha text", "http://a"), news("Beta text", "http://b")])
        .unwrap();
    let attrs = resolve(&store, embedding_along(5, 0.0)).unwrap();
    assert_eq!(text_of(&attrs, "url"), "http://b");
    assert_eq!(text_of(&attrs, "info"), "Beta text");
}

#[test]
fn ensure_twice_gives_same_count() {
    let mut store = FakeStore::new(true);
    let first = ensure_collection(&mut store);
    let creates = store.creates;
    let second = ensure_collection(&mut store);
    assert_eq!(first, Ok(0));
    assert_eq!(first, second);
    assert_eq!(store.creates, creates);
    assert_eq!(creates, 1);
}

#[test]
fn ensure_on_existing_collection_creates_nothing() {
    let mut store = FakeStore::new(true);
    store.points = Some(Vec::new());
    store.upsert(vec![Point { id: 7, vector: vec![1.0], attributes: vec![] }]);
    assert_eq!(ensure_collection(&mut store), Ok(1));
    assert_eq!(ensure_collection(&mut store), Ok(1));
    assert_eq!(store.creates, 0);
}

#[test]
fn failing_describe_creates_once_then_reports_unavailable() {
    let mut store = FakeStore::new(false);
    assert_eq!(ensure_collection(&mut store), Err(PipelineError::CollectionUnavailable));
    assert_eq!(store.creates, 1);
    assert_eq!(store.describes, 2);
}

#[test]
fn failing_create_reports_unavailable() {
    let mut store = FakeStore::new(false);
    store.create_works = false;
    assert_eq!(ensure_collection(&mut store), Err(PipelineError::CollectionUnavailable));
    assert_eq!(store.creates, 1);
    assert_eq!(store.describes, 1);
}

#[test]
fn ensure_steps_follow_the_lifecycle() {
    assert!(matches!(ensure_start(), EnsureNext::Describe(Ensuring::Describing)));
    assert!(matches!(
        ensure_step(Ensuring::Describing, StoreReply::Described(Some(4))),
        EnsureNext::Done(Ok(4))
    ));
    match ensure_step(Ensuring::Describing, StoreReply::Described(None)) {
        EnsureNext::Create(Ensuring::Creating, params) => {
            assert_eq!(params.size, 1536);
            assert_eq!(params.distance, Distance::Cosine);
        }
        other => panic!("unexpected {other:?}"),
    }
    assert!(matches!(
        ensure_step(Ensuring::Creating, StoreReply::Created(true)),
        EnsureNext::Describe(Ensuring::Redescribing)
    ));
    assert!(matches!(
        ensure_step(Ensuring::Creating, StoreReply::Created(false)),
        EnsureNext::Done(Err(PipelineError::CollectionUnavailable))
    ));
    assert!(matches!(
        ensure_step(Ensuring::Redescribing, StoreReply::Described(None)),
        EnsureNext::Done(Err(PipelineError::CollectionUnavailable))
    ));
    assert!(matches!(
        ensure_step(Ensuring::Redescribing, StoreReply::Described(Some(0))),
        EnsureNext::Done(Ok(0))
    ));
}

#[test]
fn resolve_on_empty_collection_is_empty_result() {
    let mut store = FakeStore::new(true);
    ensure_collection(&mut store).unwrap();
    assert_eq!(
        resolve(&store, embedding_along(0, 0.0)).unwrap_err(),
        PipelineError::EmptyResult
    );
    assert_eq!(best_match(vec![]).unwrap_err(), PipelineError::EmptyResult);
}

#[test]
fn query_of_wrong_length_is_dimension_mismatch() {
    let params = default_params();
    let short = vec![0.5f32; 1535];
    assert_eq!(search_request(short, &params).unwrap_err(), PipelineError::DimensionMismatch);
    let long = vec![0.5f32; 1537];
    assert_eq!(search_request(long, &params).unwrap_err(), PipelineError::DimensionMismatch);
    let exact = search_request(vec![0.5f32; 1536], &params).unwrap();
    assert_eq!(exact.vector.len(), 1536);
    assert_eq!(exact.limit, 1);
    assert!(exact.with_payload);
}

#[test]
fn best_match_takes_first_ranked_hit() {
    let hit = |id: u64, url: &str| SearchHit {
        id,
        attributes: vec![Attribute {
            key: "url".to_string(),
            value: AttrValue::Str(url.to_string()),
        }],
    };
    let attrs = best_match(vec![hit(3, "http://c"), hit(1, "http://a")]).unwrap();
    assert_eq!(text_of(&attrs, "url"), "http://c");
}

#[test]
fn embedding_response_gives_last_vector() {
    assert_eq!(take_embedding::<f32>(vec![]).unwrap_err(), PipelineError::EmbeddingError);
    assert_eq!(take_embedding(vec![vec![1.0f32], vec![2.0f32]]).unwrap(), vec![2.0f32]);
}

#[test]
fn answer_is_first_non_empty_choice() {
    assert_eq!(pick_answer(vec![]).unwrap_err(), PipelineError::NoAnswer);
    assert_eq!(pick_answer(vec![None]).unwrap_err(), PipelineError::NoAnswer);
    assert_eq!(pick_answer(vec![Some(String::new())]).unwrap_err(), PipelineError::NoAnswer);
    assert_eq!(pick_answer(vec![None, Some("x".to_string())]).unwrap(), "x");
    assert_eq!(
        pick_answer(vec![None, Some(String::new()), Some("y".to_string())]).unwrap_err(),
        PipelineError::NoAnswer
    );
    assert_eq!(
        pick_answer(vec![Some("42".to_string()), Some("43".to_string())]).unwrap(),
        "42"
    );
}

#[test]
fn system_instruction_defaults_to_concise() {
    assert_eq!(system_instruction(None), "Answer concisely as possible");
    assert_eq!(system_instruction(Some("Mam 30 lat")), "Mam 30 lat");
}

#[test]
fn error_messages_are_distinct() {
    let all = [
        PipelineError::FetchError,
        PipelineError::ParseError,
        PipelineError::CollectionUnavailable,
        PipelineError::EmbeddingError,
        PipelineError::UpsertError,
        PipelineError::DimensionMismatch,
        PipelineError::EmptyResult,
        PipelineError::NoAnswer,
    ];
    for (i, a) in all.iter().enumerate() {
        for b in &all[i + 1..] {
            assert_ne!(a.message(), b.message());
        }
    }
}
