pub mod auctioneer;
pub mod bid;
