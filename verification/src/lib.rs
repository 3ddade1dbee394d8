//! Table navigation for a terminal dashboard of cluster resources.
//!
//! The dashboard shows replica sets, the pods of a replica set and the
//! containers of a pod, each kind as a table. This library holds the state of
//! the tables and what the operator's commands do to it:
//!
//! - `data`: the records and the supplier of generated records;
//! - `width`, `rs_app`, `pod_app`, `container_app`: the widths of the columns;
//! - `style`: the height of a row and the colour themes;
//! - `app`: one table with its cursor, scroll position and theme;
//! - `command`: the commands and the keys that give them;
//! - `navigator`: drill-down from table to table and the way back.
//!
//! Reading keys and drawing are left to the program that uses the library.

pub mod app;
pub mod command;
pub mod container_app;
pub mod data;
pub mod navigator;
pub mod pod_app;
pub mod rs_app;
pub mod style;
pub mod width;
