//! A terminal weather client's logic: reading the user's answers, building
//! the request, formatting the report, and the session that ties them.

pub mod emoji;
pub mod fetch;
pub mod report;
pub mod session;
pub mod text;
