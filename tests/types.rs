use mailbreeze::{
    encode_query, ConsentType, ContactStatus, EmailStatus, List, ListContactsParams,
    ListEmailsParams, ListListsParams, ListsResponse, Pagination, SuppressReason,
    VerificationStatus,
};

fn pairs(v: &[(&str, &str)]) -> Vec<(String, String)> {
    v.iter().map(|(a, b)| (a.to_string(), b.to_string())).collect()
}

#[test]
fn wire_names() {
    assert_eq!(EmailStatus::Delivered.as_str(), "delivered");
    assert_eq!(EmailStatus::default(), EmailStatus::Pending);
    assert_eq!(ContactStatus::default(), ContactStatus::Active);
    assert_eq!(ContactStatus::Unsubscribed.as_str(), "unsubscribed");
    assert_eq!(ConsentType::LegitimateInterest.as_str(), "legitimate_interest");
    assert_eq!(SuppressReason::SpamTrap.as_str(), "spam_trap");
    assert_eq!(VerificationStatus::Risky.as_str(), "risky");
}

#[test]
fn listing_parameters_become_query_pairs() {
    let p = ListEmailsParams { status: Some(EmailStatus::Sent), page: Some(2), limit: None };
    assert_eq!(encode_query(&p.to_query()), pairs(&[("status", "sent"), ("page", "2")]));
    let p = ListContactsParams { status: None, page: None, limit: Some(10) };
    assert_eq!(encode_query(&p.to_query()), pairs(&[("limit", "10")]));
    let p = ListListsParams::default();
    assert!(encode_query(&p.to_query()).is_empty());
    let p = ListListsParams { page: Some(3), limit: Some(25) };
    assert_eq!(encode_query(&p.to_query()), pairs(&[("page", "3"), ("limit", "25")]));
}

#[test]
fn flat_list_gets_default_pagination() {
    let list = List {
        id: "list_1".to_string(),
        name: "List A".to_string(),
        description: None,
        total_contacts: 50,
        active_contacts: 48,
        suppressed_contacts: 2,
        tags: vec![],
        created_at: "2024-01-01T00:00:00Z".to_string(),
        updated_at: None,
    };
    let r = ListsResponse::from_lists(vec![list], &ListListsParams::default());
    assert_eq!(r.lists.len(), 1);
    assert_eq!(
        r.pagination,
        Pagination { page: 1, limit: 50, total: 0, total_pages: 0, has_next: false, has_prev: false }
    );
    let r = ListsResponse::from_lists(vec![], &ListListsParams { page: Some(4), limit: Some(5) });
    assert_eq!((r.pagination.page, r.pagination.limit), (4, 5));
}
