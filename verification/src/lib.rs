//! A task and project tracker: tasks with due and scheduled dates, their
//! status and urgency, filters, display tables and the decisions of the
//! command line front end.

pub mod calendar;
pub mod config;
pub mod project;
pub mod task;
pub mod table;
pub mod parser;
pub mod taskoto;
