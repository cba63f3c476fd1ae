//! Parsing and file-classification engine for the Shanghai Stock Exchange's
//! public IPO-audit query endpoints.
//!
//! The library turns the JSONP-wrapped responses of three endpoints (company
//! overview, disclosure-file listing, meeting-announcement listing) into
//! validated records, classifies every referenced document into its
//! destination folder, and plans the downloads. All decision logic lives here
//! and is verified; the HTTP and filesystem work around it is left to the
//! binary that links the library.

pub mod error;
pub mod text;
pub mod dates;
pub mod envelope;
pub mod paths;
pub mod folders;
pub mod json;
pub mod files;
pub mod disclosure;
pub mod announce;
pub mod extract;
pub mod overview;
pub mod plan;
pub mod run;
