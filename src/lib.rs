//! Keeps a locally installed server release in sync with the newest release
//! published on a mirror: version resolution, archive naming, release-tree
//! materialization plans and the pointer swap, all with verified contracts.
pub mod version;
pub mod target;
pub mod config;
pub mod remote;
pub mod materialize;
pub mod activate;
pub mod local;
pub mod extract;
pub mod pipeline;
