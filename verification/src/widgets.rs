//! The widgets that the dispatcher can show and route events to.

pub mod picker_item_widget;
pub mod picker_widget;
pub mod textbox_widget;
pub mod xlsx_table;
