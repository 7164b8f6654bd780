//! Token-based authentication and session validation for a small task service:
//! password hashing, signed session tokens, the single-active-session store,
//! the per-request authorization decision and the error taxonomy they share.

pub mod app_error;
pub mod app_state;
pub mod create_task;
pub mod delete_task;
pub mod get_json;
pub mod get_tasks;
pub mod hash;
pub mod jwt;
pub mod middleware_user_session;
pub mod mirror_body_json;
pub mod partial_update_user;
pub mod path_variables;
pub mod query_params;
pub mod routes;
pub mod session_store;
pub mod task_queries;
pub mod tasks;
pub mod text;
pub mod token_wrapper;
pub mod user;
pub mod users;
pub mod validate_json;
pub mod validation;
