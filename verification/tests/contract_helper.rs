use faucet::contract_helper::{
    effective_order, page_window, AccountActivityQuery, AccountLikelyNftsQuery,
    AccountLikelyTokensQuery, SortOrder,
};

#[test]
fn order_defaults_to_descending() {
    assert_eq!(effective_order(&None), SortOrder::Descending);
}

#[test]
fn order_is_ascending_only_for_asc_case_insensitively() {
    assert_eq!(effective_order(&Some(b"asc".to_vec())), SortOrder::Ascending);
    assert_eq!(effective_order(&Some(b"ASC".to_vec())), SortOrder::Ascending);
    assert_eq!(effective_order(&Some(b"AsC".to_vec())), SortOrder::Ascending);
    assert_eq!(effective_order(&Some(b"desc".to_vec())), SortOrder::Descending);
    assert_eq!(effective_order(&Some(b"upward".to_vec())), SortOrder::Descending);
    assert_eq!(effective_order(&Some(Vec::new())), SortOrder::Descending);
}

#[test]
fn page_window_defaults_to_first_page_of_ten() {
    assert_eq!(page_window(None, None), (1, 10, 0));
}

#[test]
fn page_window_computes_offset() {
    assert_eq!(page_window(Some(3), Some(25)), (3, 25, 50));
    assert_eq!(page_window(Some(1), Some(7)), (1, 7, 0));
    assert_eq!(page_window(Some(4), None), (4, 10, 30));
    assert_eq!(page_window(None, Some(25)), (1, 25, 0));
}

#[test]
fn query_structs_carry_their_parameters() {
    let tokens = AccountLikelyTokensQuery { from_block_timestamp: 12345u64 };
    assert_eq!(tokens.from_block_timestamp, 12345u64);
    let nfts = AccountLikelyNftsQuery { from_block_timestamp: -1i64 };
    assert_eq!(nfts.from_block_timestamp, -1i64);
    let activity = AccountActivityQuery {
        order: Some(b"asc".to_vec()),
        page: Some(2),
        per_page: None,
    };
    assert_eq!(effective_order(&activity.order), SortOrder::Ascending);
    assert_eq!(page_window(activity.page, activity.per_page), (2, 10, 10));
}
