//! Decision logic of the vector-store proxy: the collection lifecycle
//! policy, the interpretation of upsert status codes, the bulk-upsert gate,
//! and the building of search and recommendation requests.
//!
//! The functions here decide; the surrounding application performs the
//! network calls they ask for and feeds the answers back.

use vstd::prelude::*;

use crate::filters::{conds_view, convert_hashmap_to_filters, translated_filters, Condition,
    FilterConditions};

verus! {

/// Dimensionality of every collection this proxy creates.
pub const VECTOR_SIZE: u64 = 1536;

/// Number of points per request on the bulk upsert path.
pub const BULK_UPSERT_BATCH_SIZE: u64 = 100;

/// Limit a similarity search falls back to when the caller gives none.
pub const DEFAULT_SEARCH_LIMIT: u64 = 5;

/// Score threshold of every recommendation request, in hundredths: the
/// service is asked for hits scoring at least 0.90.
pub const RECOMMEND_SCORE_THRESHOLD_HUNDREDTHS: u64 = 90;

/// The sole status code with which the vector service reports a
/// semantically successful upsert.
pub const UPSERT_SUCCESS_STATUS: i32 = 2;

/// Distance metric of a collection's vector index. The proxy only ever
/// creates cosine collections.
#[derive(Clone, Copy, Debug, PartialEq, Eq, Structural)]
pub enum Distance {
    Cosine,
}

/// How a lifecycle check handles a collection that does not exist:
/// create it on demand, or leave it absent and say so. Evaluated exactly
/// once per check and never escalated.
#[derive(Clone, Copy, Debug, PartialEq, Eq, Structural)]
pub enum CreateDisposition {
    CreateIfNeeded,
    CreateNever,
}

/// The one creation call a lifecycle check may issue: a collection of
/// `VECTOR_SIZE`-dimensional vectors under the cosine metric.
#[derive(Clone, Debug)]
pub struct CreateCollectionRequest {
    pub collection_name: String,
    pub vector_size: u64,
    pub distance: Distance,
}

/// What a lifecycle check decides once the service has said whether the
/// collection exists.
#[derive(Clone, Debug)]
pub enum EnsureAction {
    /// The collection exists: the check reports true and has no side effect.
    ReportExists,
    /// The collection is absent and the disposition forbids creation: the
    /// check reports false — a legitimate outcome, not a failure — and
    /// issues no creation call.
    ReportAbsent,
    /// The collection is absent and the disposition allows creation: the
    /// check issues exactly this creation call.
    IssueCreate(CreateCollectionRequest),
}

/// Errors of the proxy's own, as opposed to transport failures of the
/// external services, which the surrounding application propagates with
/// their original cause.
#[derive(Clone, Copy, Debug, PartialEq, Eq, Structural)]
pub enum VectorProxyError {
    /// The bulk upsert path found the collection absent and could not have
    /// it created.
    CollectionDoesNotExist,
}

impl VectorProxyError {
    /// The wording the proxy reports for this error.
    pub fn message(&self) -> (r: &'static str)
        ensures
            *self == VectorProxyError::CollectionDoesNotExist ==> r@ == "Collection does not exist"@,
    {
        match self {
            VectorProxyError::CollectionDoesNotExist => "Collection does not exist",
        }
    }
}

/// A similarity-search request, ready for the vector-search boundary: the
/// surrounding application attaches the query vector and sends it.
pub struct SearchPointsRequest {
    pub collection_name: String,
    pub must: Vec<Condition>,
    pub must_not: Vec<Condition>,
    pub should: Vec<Condition>,
    pub limit: u64,
    pub with_payload: bool,
}

/// A recommendation request, ready for the vector-search boundary.
pub struct RecommendPointsRequest {
    pub collection_name: String,
    /// Point identifiers used as positive examples; always exactly one.
    pub positive: Vec<String>,
    /// Point identifiers used as negative examples; always empty.
    pub negative: Vec<String>,
    pub must: Vec<Condition>,
    pub must_not: Vec<Condition>,
    pub should: Vec<Condition>,
    pub limit: u64,
    pub score_threshold_hundredths: u64,
}

/// The proxy's handle on one named collection. The shared service client
/// itself lives with the surrounding application; this type carries what
/// the decisions below read.
pub struct Qdrant {
    pub collection_name: String,
}

impl Qdrant {
    pub fn new(collection_name: String) -> (r: Qdrant)
        ensures
            r.collection_name == collection_name,
    {
        Qdrant { collection_name }
    }

    /// The decision at the heart of the collection lifecycle check, taken
    /// once the service has answered whether the collection exists: an
    /// existing collection is reported as such with no side effect; an
    /// absent one is reported absent under `CreateNever`, and under
    /// `CreateIfNeeded` yields exactly one creation request with fixed
    /// schema — dimension `VECTOR_SIZE`, cosine distance.
    pub fn check_collection_exists_plan(
        &self,
        exists: bool,
        create_disposition: CreateDisposition,
    ) -> (r: EnsureAction)
        ensures
            exists ==> r == EnsureAction::ReportExists,
            !exists && create_disposition == CreateDisposition::CreateNever ==> r
                == EnsureAction::ReportAbsent,
            !exists && create_disposition == CreateDisposition::CreateIfNeeded ==> (r matches
                EnsureAction::IssueCreate(req) && req.collection_name@ == self.collection_name@
                && req.vector_size == VECTOR_SIZE && req.distance == Distance::Cosine),
    {
        if exists {
            EnsureAction::ReportExists
        } else {
            match create_disposition {
                CreateDisposition::CreateIfNeeded => EnsureAction::IssueCreate(
                    CreateCollectionRequest {
                        collection_name: self.collection_name.clone(),
                        vector_size: VECTOR_SIZE,
                        distance: Distance::Cosine,
                    },
                ),
                CreateDisposition::CreateNever => EnsureAction::ReportAbsent,
            }
        }
    }

    /// The boolean outcome of a lifecycle check, given its decision and —
    /// where a creation call was issued — the success flag the service
    /// reported for it. A negative creation report becomes false, not an
    /// error; a failing creation call never reaches here, since the
    /// surrounding application propagates it as a failure.
    pub fn check_collection_exists_outcome(
        action: &EnsureAction,
        creation_reported: bool,
    ) -> (r: bool)
        ensures
            action is ReportExists ==> r == true,
            action is ReportAbsent ==> r == false,
            action is IssueCreate ==> r == creation_reported,
    {
        match action {
            EnsureAction::ReportExists => true,
            EnsureAction::ReportAbsent => false,
            EnsureAction::IssueCreate(_) => creation_reported,
        }
    }

    /// How every upsert path reads the status the service reported:
    /// `UPSERT_SUCCESS_STATUS` alone means the upsert was applied; any
    /// other status is a non-error "not applied" result. A failure of the
    /// call itself never reaches this point: the surrounding application
    /// propagates it as an error, not as false.
    pub fn upsert_status_is_success(status: i32) -> (r: bool)
        ensures
            r == (status == UPSERT_SUCCESS_STATUS),
    {
        status == UPSERT_SUCCESS_STATUS
    }

    /// The guard of the bulk upsert path: it runs only after a lifecycle
    /// check with `CreateIfNeeded`. A collection the check could not ensure
    /// is an explicit error — unlike the single-point paths, which assume
    /// the caller ensured the collection beforehand; that asymmetry is a
    /// known, deliberate inconsistency between the two paths. On success
    /// the batch size to upsert with is fixed at `BULK_UPSERT_BATCH_SIZE`.
    pub fn bulk_upsert_data_plan(&self, collection_ensured: bool) -> (r: Result<
        u64,
        VectorProxyError,
    >)
        ensures
            collection_ensured ==> r == Ok::<u64, VectorProxyError>(BULK_UPSERT_BATCH_SIZE),
            !collection_ensured ==> r == Err::<u64, VectorProxyError>(
                VectorProxyError::CollectionDoesNotExist,
            ),
    {
        if collection_ensured {
            Ok(BULK_UPSERT_BATCH_SIZE)
        } else {
            Err(VectorProxyError::CollectionDoesNotExist)
        }
    }

    /// Builds the similarity-search request: the caller's filters become
    /// the three translated condition lists, the limit falls back to
    /// `DEFAULT_SEARCH_LIMIT` when absent, and payload data is always
    /// requested. Hit ordering is the service's own and is not re-sorted.
    pub fn return_similar_results_request(
        &self,
        filters: &Option<FilterConditions>,
        limit: Option<u64>,
    ) -> (r: SearchPointsRequest)
        ensures
            r.collection_name@ == self.collection_name@,
            conds_view(r.must@) == translated_filters(*filters).0,
            conds_view(r.must_not@) == translated_filters(*filters).1,
            conds_view(r.should@) == translated_filters(*filters).2,
            limit matches Some(l) ==> r.limit == l,
            limit is None ==> r.limit == DEFAULT_SEARCH_LIMIT,
            r.with_payload == true,
    {
        let (must, must_not, should) = convert_hashmap_to_filters(filters);
        let limit_value: u64 = match limit {
            Some(l) => l,
            None => DEFAULT_SEARCH_LIMIT,
        };
        SearchPointsRequest {
            collection_name: self.collection_name.clone(),
            must,
            must_not,
            should,
            limit: limit_value,
            with_payload: true,
        }
    }

    /// Builds the recommendation request: the given identifier is the sole
    /// positive example, no negative examples are supported, the filters
    /// are translated as for search, and the score threshold is fixed at
    /// 0.90. The service's ranked list is returned unmodified.
    pub fn return_recommendations_request(
        &self,
        id: String,
        filters: &Option<FilterConditions>,
        limit: u64,
    ) -> (r: RecommendPointsRequest)
        ensures
            r.collection_name@ == self.collection_name@,
            r.positive@.len() == 1,
            r.positive@[0]@ == id@,
            r.negative@.len() == 0,
            conds_view(r.must@) == translated_filters(*filters).0,
            conds_view(r.must_not@) == translated_filters(*filters).1,
            conds_view(r.should@) == translated_filters(*filters).2,
            r.limit == limit,
            r.score_threshold_hundredths == RECOMMEND_SCORE_THRESHOLD_HUNDREDTHS,
    {
        let (must, must_not, should) = convert_hashmap_to_filters(filters);
        let mut positive: Vec<String> = Vec::new();
        positive.push(id);
        RecommendPointsRequest {
            collection_name: self.collection_name.clone(),
            positive,
            negative: Vec::new(),
            must,
            must_not,
            should,
            limit,
            score_threshold_hundredths: RECOMMEND_SCORE_THRESHOLD_HUNDREDTHS,
        }
    }
}

} // verus!
