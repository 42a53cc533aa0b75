mod auth;
mod config;
mod errors;
mod ident;
mod pagination;
mod password;
mod todos;
mod token;
mod users;
mod validate;

pub use auth::authenticate;
pub use auth::bearer_token;
pub use auth::extract_bearer;
pub use config::EnvironmentVariables;
pub use errors::message_spec;
pub use errors::status_code_spec;
pub use errors::validation_messages;
pub use errors::ServiceError;
pub use ident::parse_u64;
pub use ident::u64_to_dec;
pub use pagination::effective_limit;
pub use pagination::effective_offset;
pub use pagination::effective_params;
pub use pagination::limit_default;
pub use pagination::offset_default;
pub use pagination::params_valid;
pub use pagination::GetTodosQueryParam;
pub use todos::apply_patch;
pub use todos::create_todo;
pub use todos::delete_todo;
pub use todos::get_todo;
pub use todos::get_todos;
pub use todos::lemma_delete_idempotent;
pub use todos::lemma_owned_todos_belong_to_owner;
pub use todos::lemma_ownership_isolation;
pub use todos::lemma_patch_overwrites_exactly_given_fields;
pub use todos::owned_todos;
pub use todos::todo_exists;
pub use todos::todo_index;
pub use todos::unique_ids;
pub use todos::update_todo;
pub use todos::Count;
pub use todos::CreateTodo;
pub use todos::GetTodosSuccess;
pub use todos::Todo;
pub use todos::TodoStore;
pub use todos::UpdateTodo;
pub use password::password_matches;
pub use password::Argon2PasswordHash;
pub use token::token_claims;
pub use token::token_of;
pub use token::Claims;
pub use token::JWT;
pub use token::TOKEN_LIFETIME_SECONDS;
pub use users::credentials_rejected;
pub use users::email_taken;
pub use users::lemma_duplicate_registration_conflicts;
pub use users::lemma_login_rejections_indistinguishable;
pub use users::lemma_registered_user_is_accepted;
pub use users::login_rejection;
pub use users::login_user;
pub use users::register_user;
pub use users::user_index_by_email;
pub use users::LoginUser;
pub use users::LoginUserSuccess;
pub use users::RegisterUser;
pub use users::RegisterUserSuccess;
pub use users::User;
pub use users::UserStore;
pub use validate::credentials_valid;
pub use validate::is_email;
pub use validate::validate_credentials;
