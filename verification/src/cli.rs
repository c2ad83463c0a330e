//! The command-line surface as plain data. The surrounding program parses
//! the actual arguments and hands them over in this shape.

use vstd::prelude::*;

verus! {

/// Global options and the selected subcommand.
pub struct Cli {
    pub verbose: bool,
    pub bucket: Option<String>,
    pub region: Option<String>,
    pub access_key: Option<String>,
    pub secret_key: Option<String>,
    pub endpoint: Option<String>,
    pub max_size: u64,
    pub command: Commands,
}

/// The subcommands the program offers.
pub enum Commands {
    Upload { file_path: String, expires: u64 },
    Download { file_name: String, output: Option<String>, presign: bool, expires: u64 },
    List { prefix: Option<String>, limit: i32 },
    Delete { file_name: String },
    Server { port: u16 },
}

} // verus!
