//! Scraping core for a bicycle-share operator's web portal, without any I/O.
//!
//! The library builds the form payloads that the portal expects, reads the
//! HTML pages that it answers with, groups the scraped ports by the caller's
//! sub-areas, merges the results of concurrent area requests and renders the
//! reports. Sending requests and writing files is left to the caller.

pub mod decimal;
pub mod error;
pub mod extract;
pub mod form;
pub mod laws;
pub mod model;
pub mod orchestrator;
pub mod pattern;
pub mod report;
pub mod scrape;

pub use error::{ErrorEnum, ExtractError, SessionField};
pub use extract::{extract_ports, extract_session, PortTable};
pub use form::{list_bicycles_form, list_ports_form, login_form, Form};
pub use model::{Area, DocomoId, HtmlSource, PortInfo, SubArea};
pub use orchestrator::{Orchestrator, Phase, CHANNEL_CAPACITY};
pub use report::{render, report_path};
pub use scrape::{list_bicycles, list_ports, login};
