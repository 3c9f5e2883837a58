pub mod index;
pub mod memories_delete;
pub mod onboard;
pub mod providers_delete;
pub mod providers_list;
