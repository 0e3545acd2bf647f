pub mod account;
pub mod answer;
