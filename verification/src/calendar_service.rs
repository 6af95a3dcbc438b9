//! The event request: the fields collected from the command line, their
//! validation, and the construction of the event document.

use vstd::prelude::*;
use crate::event::EventDocument;
use crate::timestamp::{instant_gt, parse_ok, parse_timestamp, parsed_instant, render_rfc3339, rfc3339_text};

verus! {

/// Why an event request was rejected before any document was built.
#[derive(Clone, Copy, Debug, PartialEq, Eq, Structural)]
pub enum ValidationError {
    /// A start or end text that the RFC 3339 parser rejects.
    InvalidTimestamp,
    /// A start instant strictly after the end instant.
    InvalidRange,
}

/// One calendar event request as collected from the command line.
#[derive(Debug)]
pub struct CalendarService {
    pub subject: String,
    /// Optional description; an absent one reads as the empty string.
    pub descr: Option<String>,
    /// Collected alongside the description but not placed into the document.
    pub content: String,
    /// RFC 3339 text of the start instant.
    pub date_start: String,
    /// RFC 3339 text of the end instant.
    pub date_end: String,
    pub timezone: String,
    pub location: String,
}

impl CalendarService {
    /// The text that the document's `body.content` carries: the description,
    /// or the empty string where none was given.
    pub open spec fn description_text(self) -> Seq<char> {
        match self.descr {
            Some(d) => d@,
            None => Seq::empty(),
        }
    }

    /// True when both timestamp texts parse and the start instant is not
    /// after the end instant, so that a document is owed.
    pub open spec fn spec_accepted(self) -> bool {
        &&& parse_ok(self.date_start@)
        &&& parse_ok(self.date_end@)
        &&& !instant_gt(parsed_instant(self.date_start@), parsed_instant(self.date_end@))
    }

    /// Gathers an event request, filling in the defaults: timezone
    /// "America/Sao_Paulo" and location "Online" where none was given.
    pub fn new(
        subject: String,
        descr: Option<String>,
        content: String,
        date_start: String,
        date_end: String,
        timezone: Option<String>,
        location: Option<String>,
    ) -> (r: CalendarService)
        ensures
            r.subject == subject,
            r.descr == descr,
            r.content == content,
            r.date_start == date_start,
            r.date_end == date_end,
            r.timezone@ == (match timezone {
                Some(t) => t@,
                None => "America/Sao_Paulo"@,
            }),
            r.location@ == (match location {
                Some(l) => l@,
                None => "Online"@,
            }),
    {
        let tz = match timezone {
            Some(t) => t,
            None => "America/Sao_Paulo".to_owned(),
        };
        let loc = match location {
            Some(l) => l,
            None => "Online".to_owned(),
        };
        CalendarService {
            subject,
            descr,
            content,
            date_start,
            date_end,
            timezone: tz,
            location: loc,
        }
    }

    /// Validates the request and builds the event document.
    ///
    /// The timestamp texts are parsed as RFC 3339; a rejected one fails the
    /// request with `InvalidTimestamp`, a start strictly after the end fails
    /// it with `InvalidRange`, and on every other input the document is
    /// built: the subject, timezone and location verbatim, the description
    /// (or the empty string) as the body content, and each instant rendered
    /// back to its normalized RFC 3339 text. Nothing is sent anywhere.
    pub fn build_document(&self) -> (r: Result<EventDocument, ValidationError>)
        ensures
            r is Ok <==> self.spec_accepted(),
            (!parse_ok(self.date_start@) || !parse_ok(self.date_end@)) ==> r == Err::<
                EventDocument,
                ValidationError,
            >(ValidationError::InvalidTimestamp),
            (parse_ok(self.date_start@) && parse_ok(self.date_end@) && instant_gt(
                parsed_instant(self.date_start@),
                parsed_instant(self.date_end@),
            )) ==> r == Err::<EventDocument, ValidationError>(ValidationError::InvalidRange),
            r matches Ok(doc) ==> {
                &&& doc.subject@ == self.subject@
                &&& doc.body_content@ == self.description_text()
                &&& doc.start_date_time@ == rfc3339_text(
                    parsed_instant(self.date_start@).0,
                    parsed_instant(self.date_start@).1,
                    parsed_instant(self.date_start@).2,
                )
                &&& doc.start_time_zone@ == self.timezone@
                &&& doc.end_date_time@ == rfc3339_text(
                    parsed_instant(self.date_end@).0,
                    parsed_instant(self.date_end@).1,
                    parsed_instant(self.date_end@).2,
                )
                &&& doc.end_time_zone@ == self.timezone@
                &&& doc.location_display_name@ == self.location@
            },
    {
        let start = match parse_timestamp(self.date_start.as_str()) {
            Some(t) => t,
            None => {
                return Err(ValidationError::InvalidTimestamp);
            },
        };
        let end = match parse_timestamp(self.date_end.as_str()) {
            Some(t) => t,
            None => {
                return Err(ValidationError::InvalidTimestamp);
            },
        };
        if start.after(&end) {
            return Err(ValidationError::InvalidRange);
        }
        let description = match &self.descr {
            Some(d) => d.clone(),
            None => String::new(),
        };
        Ok(
            EventDocument {
                subject: self.subject.clone(),
                body_content: description,
                start_date_time: render_rfc3339(&start),
                start_time_zone: self.timezone.clone(),
                end_date_time: render_rfc3339(&end),
                end_time_zone: self.timezone.clone(),
                location_display_name: self.location.clone(),
            },
        )
    }
}

} // verus!
