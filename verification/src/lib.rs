pub mod codec;
pub mod handler;
pub mod linked_list;
pub mod pool;
pub mod system;
