//! Launch support for the Angular language server inside an editor host: deciding when its
//! package must be installed or upgraded, and building the paths, arguments and
//! initialization options handed to the server process.

pub mod installer;
pub mod paths;
