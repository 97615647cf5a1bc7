//! Server-rendered pieces of the package site: escaping, icons, form
//! controls, listings and pagination.
pub mod escape;
pub mod input_group;
pub mod install_widget;
pub mod icons;
pub mod sidebar;
pub mod package_row;
pub mod package_card;
pub mod quick_start;
pub mod search_bar;
pub mod pagination;
pub mod results_page;
pub mod package_columns;
pub mod wit_item;
pub mod listing;
pub mod pretty;
pub mod tabs;
pub mod navbar;
