//! A two-level issue tracker: epics that own stories, a store that keeps the
//! whole state behind a pluggable backend, and a page-stack navigator.

pub mod db;
pub mod history;
pub mod models;
pub mod navigator;
pub mod page_helpers;
pub mod pages;
pub mod prompts;
pub mod transitions;
