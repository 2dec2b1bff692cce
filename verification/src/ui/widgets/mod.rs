//! Widget states.
pub mod button;
pub mod category_bar;
pub mod edit_form;
pub mod help;
pub mod item_detail;
pub mod item_list;
pub mod kind_selector;
pub mod notification;
pub mod search_dialog;
pub mod statusline;
