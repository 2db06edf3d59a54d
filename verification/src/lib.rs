//! Path normalisation and file-type filtering for a document viewer that is
//! started by the operating system with the file to open on its command line.

pub mod dispatch;
pub mod filter;
pub mod resolve;
pub mod text;
