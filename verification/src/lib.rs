//! Core of a federated post service: visibility mapping, a transactional
//! post store (create / read / delete with ordered attachments), read-model
//! aggregation over owners, attachments and reactions, and the decision
//! rules around the outbound federation announcement.

pub mod laws;
pub mod media;
pub mod model;
pub mod read;
pub mod store;
pub mod uri;
pub mod visibility;
