pub mod initialize;
pub mod update_root;
pub mod verify_edge;
