pub mod account;
pub mod websockets;
