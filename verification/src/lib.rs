//! A SHA-1 checksum library: a streaming digester fed in chunks of any
//! size, and a verification engine for checksum-record files (lines of
//! `<digest> <path>`), with exact contracts on parsing, classification
//! and output.
#![allow(unused_imports)]
use vstd::prelude::*;

pub mod digest;
pub mod verify;
