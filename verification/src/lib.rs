//! The logic of an app that places a donation widget on storefronts, and of
//! the export that mirrors its data into a spreadsheet.
//!
//! The heart of the export is [`sheets`]: it reconciles the rows of a sheet
//! with the identity keys the sheet already holds and plans one write for
//! each row; [`sheet_laws`] states what holds of every such plan, and
//! [`report`] builds the rows and joins the plans of all sheets into one
//! batch. The other modules hold what the server of the app decides and
//! writes: claims and their failures, the routes and scripts of the shop
//! platform, the names events are stored under, and signed checkout links.

pub mod authentication;
pub mod bigcommerce;
pub mod calendar;
pub mod configuration;
pub mod data;
pub mod liq_pay;
pub mod payment_buttons;
pub mod report;
pub mod routes;
pub mod sheet_laws;
pub mod sheets;
pub mod status;
pub mod text;
