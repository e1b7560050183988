//! SagePAS policy-administration core: business identifiers, lifecycle
//! rules, role mapping, underwriting, rating, pricing tables and ledgers.

pub mod text;
pub mod ids;
pub mod pas_domain;
pub mod auth;
pub mod money;
pub mod underwriting;
pub mod insurance;
pub mod rating;
pub mod pricing;
pub mod timeline;
pub mod policy_ledger;
pub mod premium_ledger;
pub mod oos;
pub mod whatsapp;
pub mod config;
pub mod blob;
pub mod events;
pub mod conversation;
pub mod policy_lock;
pub mod doc_pipeline;
pub mod contracts;
pub mod documents;
pub mod search;
pub mod evaluate;
pub mod pdf_pages;
pub mod openai;
