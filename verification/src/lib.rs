//! Verified core of a small file manager: the navigation history behind the
//! back, forward and up buttons, the description of directory entries and the
//! order in which a listing shows them.

pub mod file_info;
pub mod listing;
pub mod navigation;
pub mod operations;
pub mod path;
pub mod places;
pub mod text;
