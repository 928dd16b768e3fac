use vector_db_proxy::filters::FilterConditions;
use vector_db_proxy::qdrant::{
    CreateDisposition, Distance, EnsureAction, Qdrant, VectorProxyError,
};

#[test]
fn absent_collection_with_create_never_reports_absent_and_issues_no_creation() {
    let q = Qdrant::new("docs".to_string());
    let action = q.check_collection_exists_plan(false, CreateDisposition::CreateNever);
    assert!(matches!(action, EnsureAction::ReportAbsent));
    assert_eq!(Qdrant::check_collection_exists_outcome(&action, false), false);
    assert_eq!(Qdrant::check_collection_exists_outcome(&action, true), false);
}

#[test]
fn absent_collection_with_create_if_needed_issues_one_creation_with_fixed_schema() {
    let q = Qdrant::new("docs".to_string());
    let action = q.check_collection_exists_plan(false, CreateDisposition::CreateIfNeeded);
    match action {
        EnsureAction::IssueCreate(req) => {
            assert_eq!(req.collection_name, "docs");
            assert_eq!(req.vector_size, 1536);
            assert_eq!(req.distance, Distance::Cosine);
        }
        other => panic!("expected a creation request, got {:?}", other),
    }
}

#[test]
fn existing_collection_reports_exists_whatever_the_disposition() {
    let q = Qdrant::new("docs".to_string());
    let a = q.check_collection_exists_plan(true, CreateDisposition::CreateNever);
    assert!(matches!(a, EnsureAction::ReportExists));
    assert_eq!(Qdrant::check_collection_exists_outcome(&a, false), true);
    let b = q.check_collection_exists_plan(true, CreateDisposition::CreateIfNeeded);
    assert!(matches!(b, EnsureAction::ReportExists));
}

#[test]
fn creation_report_becomes_the_outcome_of_the_check() {
    let q = Qdrant::new("docs".to_string());
    let action = q.check_collection_exists_plan(false, CreateDisposition::CreateIfNeeded);
    assert_eq!(Qdrant::check_collection_exists_outcome(&action, true), true);
    assert_eq!(Qdrant::check_collection_exists_outcome(&action, false), false);
}

#[test]
fn bulk_upsert_on_unensured_collection_fails_without_an_upsert_call() {
    let q = Qdrant::new("docs".to_string());
    let plan = q.bulk_upsert_data_plan(false);
    match plan {
        Err(e) => {
            assert_eq!(e, VectorProxyError::CollectionDoesNotExist);
            assert_eq!(e.message(), "Collection does not exist");
        }
        Ok(batch) => panic!("expected an error, got a batch size of {}", batch),
    }
}

#[test]
fn bulk_upsert_on_ensured_collection_batches_by_one_hundred() {
    let q = Qdrant::new("docs".to_string());
    assert_eq!(q.bulk_upsert_data_plan(true), Ok(100));
}

#[test]
fn status_two_is_the_sole_upsert_success() {
    assert!(Qdrant::upsert_status_is_success(2));
    assert!(!Qdrant::upsert_status_is_success(0));
    assert!(!Qdrant::upsert_status_is_success(1));
    assert!(!Qdrant::upsert_status_is_success(3));
    assert!(!Qdrant::upsert_status_is_success(-1));
}

#[test]
fn search_limit_defaults_to_five() {
    let q = Qdrant::new("docs".to_string());
    let req = q.return_similar_results_request(&None, None);
    assert_eq!(req.limit, 5);
    assert!(req.with_payload);
}

#[test]
fn search_limit_of_twenty_is_requested_exactly() {
    let q = Qdrant::new("docs".to_string());
    let req = q.return_similar_results_request(&None, Some(20));
    assert_eq!(req.limit, 20);
    assert!(req.with_payload);
}

#[test]
fn search_request_carries_the_translated_filters() {
    let q = Qdrant::new("docs".to_string());
    let filters = FilterConditions {
        must: vec![vec![("kind".to_string(), "report".to_string())]],
        must_not: vec![vec![("lang".to_string(), "fr".to_string())]],
        should: vec![],
    };
    let req = q.return_similar_results_request(&Some(filters), None);
    assert_eq!(req.collection_name, "docs");
    assert_eq!(req.must.len(), 1);
    assert_eq!(req.must[0].key, "kind");
    assert_eq!(req.must[0].value, "report");
    assert_eq!(req.must_not.len(), 1);
    assert_eq!(req.must_not[0].key, "lang");
    assert!(req.should.is_empty());
}

#[test]
fn recommendation_request_has_one_positive_no_negatives_and_the_fixed_threshold() {
    let q = Qdrant::new("docs".to_string());
    let req = q.return_recommendations_request(
        "9cd1a1c7-0000-0000-0000-000000000001".to_string(),
        &None,
        7,
    );
    assert_eq!(req.collection_name, "docs");
    assert_eq!(req.positive, vec!["9cd1a1c7-0000-0000-0000-000000000001".to_string()]);
    assert!(req.negative.is_empty());
    assert_eq!(req.limit, 7);
    assert_eq!(req.score_threshold_hundredths, 90);
}
