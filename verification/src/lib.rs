//! Keeps a delimited block of a hosts file in step with the containers that
//! run on one Docker network.
//!
//! Every function here is a pure computation with a proved contract; reading
//! the Docker API and the file system is left to the program built on top.

pub mod constants;
pub mod docker_host;
pub mod process_file;
pub mod file_text;
pub mod inventory;
pub mod error;
pub mod sync_loop;
pub mod sync_run;
