//! Creation of Microsoft Graph calendar events from the command line:
//! validated event requests, a verified JSON document encoder, and the rules
//! for reading the submission outcome.

pub mod api_controller;
pub mod calendar_service;
pub mod cli;
pub mod event;
pub mod json;
pub mod timestamp;
