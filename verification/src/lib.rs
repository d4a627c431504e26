pub mod api_data;
pub mod config;
pub mod pool_events;
pub mod redis_interop;
pub mod routes;
pub mod text;
