pub mod account;
pub mod async_websocket_client;
pub mod dialect;
pub mod errors;
pub mod event;
pub mod futures;
pub mod json;
pub mod websockets;
