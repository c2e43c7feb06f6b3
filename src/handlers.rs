pub mod categorized_image;
pub mod random_image;
