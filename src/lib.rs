//! Access gateway for object storage: request validation, tenant resolution,
//! referer policy and the decision pipelines that lead to a signed request.

pub mod set_id;
pub mod error;
pub mod keys;
pub mod table;
pub mod tenant;
pub mod gateway;
pub mod laws;
pub mod db;
