//! The event document: the JSON payload that describes one calendar event in
//! the shape the calendar provider expects.

use vstd::prelude::*;
use crate::json::{escape_json, json_escape};

verus! {

/// The fields of the JSON document that describes one calendar event. The
/// body's content type is fixed to HTML and is not a field.
#[derive(Debug)]
pub struct EventDocument {
    pub subject: String,
    /// The text under `body.content`: the event's description.
    pub body_content: String,
    /// RFC 3339 text under `start.dateTime`.
    pub start_date_time: String,
    pub start_time_zone: String,
    /// RFC 3339 text under `end.dateTime`.
    pub end_date_time: String,
    pub end_time_zone: String,
    pub location_display_name: String,
}

/// The JSON text of an event document with the given field texts: an object
/// with `subject`, `body.contentType` fixed to `"HTML"`, `body.content`,
/// `start` and `end` with `dateTime` and `timeZone`, and
/// `location.displayName`; every field text escaped as a JSON string.
pub open spec fn json_of(
    subject: Seq<char>,
    content: Seq<char>,
    start_date_time: Seq<char>,
    start_time_zone: Seq<char>,
    end_date_time: Seq<char>,
    end_time_zone: Seq<char>,
    location_display_name: Seq<char>,
) -> Seq<char> {
    "{\"subject\":\""@ + json_escape(subject) + "\",\"body\":{\"contentType\":\"HTML\",\"content\":\""@
        + json_escape(content) + "\"},\"start\":{\"dateTime\":\""@ + json_escape(start_date_time)
        + "\",\"timeZone\":\""@ + json_escape(start_time_zone) + "\"},\"end\":{\"dateTime\":\""@
        + json_escape(end_date_time) + "\",\"timeZone\":\""@ + json_escape(end_time_zone)
        + "\"},\"location\":{\"displayName\":\""@ + json_escape(location_display_name) + "\"}}"@
}

impl EventDocument {
    /// The JSON text of this document.
    pub open spec fn spec_json(self) -> Seq<char> {
        json_of(
            self.subject@,
            self.body_content@,
            self.start_date_time@,
            self.start_time_zone@,
            self.end_date_time@,
            self.end_time_zone@,
            self.location_display_name@,
        )
    }

    /// Serializes the document as JSON text.
    pub fn to_json(&self) -> (r: String)
        ensures
            r@ == self.spec_json(),
    {
        let mut out = String::new();
        out.append("{\"subject\":\"");
        let piece = escape_json(self.subject.as_str());
        out.append(piece.as_str());
        out.append("\",\"body\":{\"contentType\":\"HTML\",\"content\":\"");
        let piece = escape_json(self.body_content.as_str());
        out.append(piece.as_str());
        out.append("\"},\"start\":{\"dateTime\":\"");
        let piece = escape_json(self.start_date_time.as_str());
        out.append(piece.as_str());
        out.append("\",\"timeZone\":\"");
        let piece = escape_json(self.start_time_zone.as_str());
        out.append(piece.as_str());
        out.append("\"},\"end\":{\"dateTime\":\"");
        let piece = escape_json(self.end_date_time.as_str());
        out.append(piece.as_str());
        out.append("\",\"timeZone\":\"");
        let piece = escape_json(self.end_time_zone.as_str());
        out.append(piece.as_str());
        out.append("\"},\"location\":{\"displayName\":\"");
        let piece = escape_json(self.location_display_name.as_str());
        out.append(piece.as_str());
        out.append("\"}}");
        proof {
            assert(out@ =~= self.spec_json());
        }
        out
    }
}

} // verus!
