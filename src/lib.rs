//! Typed client core for the MailBreeze REST API: configuration, request
//! preparation, retry policy and the translation of HTTP failures into a
//! closed set of domain errors.

pub mod classify;
pub mod config;
pub mod engine;
pub mod error;
pub mod text;
pub mod types;

pub use classify::{error_for_status, error_from_response, parse_retry_after, parse_retry_after_at};
pub use config::{ClientConfig, MailBreezeBuilder};
pub use engine::{
    backoff_delay_ms, encode_query, interpret_empty_response, interpret_response, next_step,
    prepare_request, Method, PreparedRequest, QueryValue, RequestDescriptor, Step,
};
pub use error::{Error, Result, TransportError};
pub use types::{
    ConsentType, ContactStatus, EmailStatus, List, ListContactsParams, ListEmailsParams,
    ListListsParams, ListsResponse, Pagination, SuppressReason, VerificationStatus,
};
