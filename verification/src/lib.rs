use vstd::prelude::*;

pub mod api_error;
pub mod text;
pub mod output;
pub mod security;
pub mod dashboard;
pub mod lifecycle;
pub mod bounty;
pub mod mesh;
pub mod knowledge;
pub mod discovery;
pub mod init;
pub mod lineage;
pub mod model;
pub mod verification;
pub mod token;
pub mod cli;
pub mod feed;
pub mod web;
pub mod system;
pub mod identity;
pub mod reputation;
pub mod training;
pub mod inference;

verus! {

} // verus!
