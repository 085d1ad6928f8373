pub mod assoc;
pub mod auth;
pub mod branch_laws;
pub mod branch_names;
pub mod branches;
pub mod client;
pub mod client_laws;
pub mod clock;
pub mod config;
pub mod db;
pub mod demo;
pub mod demo_laws;
pub mod device_sessions;
pub mod dotenv;
pub mod fields;
pub mod github;
pub mod http;
pub mod json;
pub mod listen;
pub mod listing_laws;
pub mod login;
pub mod login_laws;
pub mod messages;
pub mod name_laws;
pub mod output_laws;
pub mod rate_limit;
pub mod restore;
pub mod restore_laws;
pub mod runs;
pub mod secrets;
pub mod server_laws;
pub mod service;
pub mod session;
pub mod status;
pub mod supabase;
pub mod tables;
pub mod text;
pub mod text_laws;
pub mod tree;
