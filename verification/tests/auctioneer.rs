use std::cmp::Ordering;

use auction::auctioneer::Auctioneer;
use auction::bid::Bid;

#[test]
fn empty_auction_has_no_best() {
    let auc = Auctioneer::new();
    assert!(auc.get_best_bid().is_none());
    assert_eq!(auc.history().len(), 0);
}

#[test]
fn default_is_empty() {
    let auc = Auctioneer::default();
    assert!(auc.get_best_bid().is_none());
    assert_eq!(auc.history().len(), 0);
}

#[test]
fn first_bid_always_accepted() {
    let mut auc = Auctioneer::new();
    assert!(auc.submit_bid(Bid::new(1000, "A".to_string())));
    assert_eq!(auc.get_best_bid().unwrap().value, 1000);
    assert_eq!(auc.history().len(), 1);
}

#[test]
fn lower_bid_rejected() {
    let mut auc = Auctioneer::new();
    assert!(auc.submit_bid(Bid::new(1000, "A".to_string())));
    assert!(!auc.submit_bid(Bid::new(500, "B".to_string())));
    assert_eq!(auc.get_best_bid().unwrap().value, 1000);
    assert_eq!(auc.history().len(), 1);
}

#[test]
fn higher_bid_replaces_best() {
    let mut auc = Auctioneer::new();
    assert!(auc.submit_bid(Bid::new(1000, "A".to_string())));
    assert!(!auc.submit_bid(Bid::new(500, "B".to_string())));
    assert!(auc.submit_bid(Bid::new(1200, "C".to_string())));
    assert_eq!(auc.get_best_bid().unwrap().value, 1200);
    assert_eq!(auc.history().len(), 2);
    assert_eq!(auc.history()[1].value, 1200);
}

#[test]
fn resubmitting_best_is_rejected() {
    let mut auc = Auctioneer::new();
    let bid = Bid::new(900, "A".to_string());
    assert!(auc.submit_bid(bid.clone()));
    assert!(!auc.submit_bid(bid));
    assert_eq!(auc.history().len(), 1);
    assert_eq!(auc.get_best_bid().unwrap().value, 900);
}

#[test]
fn history_strictly_improves() {
    let mut auc = Auctioneer::new();
    auc.submit_bid(Bid { id: 1, value: 100, timestamp: 1, builder_id: "a".to_string(), nonce: 0 });
    auc.submit_bid(Bid { id: 2, value: 50, timestamp: 2, builder_id: "b".to_string(), nonce: 0 });
    auc.submit_bid(Bid { id: 3, value: 100, timestamp: 3, builder_id: "c".to_string(), nonce: 0 });
    auc.submit_bid(Bid { id: 4, value: 300, timestamp: 4, builder_id: "d".to_string(), nonce: 0 });

    let history = auc.history();
    assert_eq!(history.len(), 3);
    for i in 0..history.len() - 1 {
        assert_eq!(history[i + 1].compare_to(&history[i]), Ordering::Greater);
    }
}
