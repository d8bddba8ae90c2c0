pub mod authorize_net;
pub mod fortis_pay;
pub mod manager;
pub mod sandbox;
