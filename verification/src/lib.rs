/// Choosing a bounded default worker-thread count.
pub mod parallelism;
/// Numbered records and in-place replacement in a fixed-length list.
pub mod records;
