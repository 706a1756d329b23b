//! Field selection for the dump commands of a statistics tool.
//!
//! Each domain (system, disk, btrfs, process, cgroup, iface, network,
//! transport) has a closed set of named leaf fields and a few groups that
//! stand for several of them. This library resolves the tokens that a user
//! types to fields and groups, expands a selection to the columns to show, and
//! builds the long description of each command from the same definitions.
//!
//! - `text`: names as character sequences, letter case, containment
//! - `catalog`: closed sets of named identifiers and the lookup of a name
//! - `field`: common fields, leaf fields, groups, and the tokens of a selection
//! - `expand`: from a selection to columns
//! - `help`: the long description of a command
//! - `command`: the options of the commands and how they choose the columns
//! - `error`: why a request is rejected
//! - one module for each domain, `network` holding two of them
pub mod btrfs;
pub mod catalog;
pub mod cgroup;
pub mod command;
pub mod disk;
pub mod error;
pub mod expand;
pub mod field;
pub mod help;
pub mod iface;
pub mod network;
pub mod process;
pub mod system;
pub mod text;
