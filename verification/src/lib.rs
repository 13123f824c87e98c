//! Bulk import of bookmark records into a remote catalog.
//!
//! For every record the pipeline checks that the bookmarked page can still be
//! reached, submits it to the remote save mutation, archives it where the
//! record asks for that, and files the terminal outcome under one of three
//! reporting buckets. This crate holds the decisions of that pipeline; the
//! network calls themselves are made by the program around it.

pub mod article;
pub mod batch;
pub mod classify;
pub mod json;
pub mod outcome;
pub mod pipeline;
pub mod reply;
pub mod report;
pub mod request;
pub mod rows;
pub mod text;
pub mod trace;
pub mod validator;
