pub mod bounded_stack;
pub mod dyn_array;
pub mod linked_list;
pub mod list_hierarchy;
pub mod list_model;
pub mod queue;
pub mod queues_hierarchy;
