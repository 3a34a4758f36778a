//! The interface of resource access.
//!
//! A service that holds resources is asked for one of two things: to hand out
//! the resource at a path, or to take a local file as the resource at a path.
//! It answers with the first [`Step`] of the transfer, which the caller
//! carries out step by step.

use crate::gcp::gcp_resource_access::{bytes_view, Step, StepView};
use vstd::prelude::*;

verus! {

pub trait ResourceAccess {
    /// The first step of reading the resource at `path`.
    spec fn reading(&self, path: Seq<char>) -> StepView;

    /// The first step of writing the resource at `path`, where `file` is the
    /// content of the local file, or the text of the error with which it
    /// could not be read.
    spec fn writing(&self, path: Seq<char>, file: Result<Seq<u8>, Seq<char>>) -> StepView;

    /// Begins to read the resource at `path`.
    fn get_resource(&self, path: &str) -> (step: Step)
        ensures
            step@ == self.reading(path@),
    ;

    /// Begins to write the resource at `path`. `file` is the content of the
    /// local file that holds the payload, or the text of the error with which
    /// it could not be read.
    fn put_resource(&self, path: &str, file: Result<Vec<u8>, String>) -> (step: Step)
        ensures
            step@ == self.writing(path@, bytes_view(file)),
    ;
}

} // verus!
