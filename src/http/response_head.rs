//! The head phase: turning the first outbound event into a status and headers.
use vstd::prelude::*;

use crate::event::{headers_view, Event, HeaderLine};
use crate::http::error::ProtocolError;
use crate::http::header::{accept_headers, accepted_headers};
use crate::http::status::{check_status, valid_status};

verus! {

/// The status and headers with which a response starts.
pub struct HttpResponseStart {
    pub status: u16,
    pub headers: Vec<HeaderLine>,
}

/// The status and headers of a response head, as mathematical values.
pub type HeadView = (u16, Seq<(Seq<u8>, Seq<u8>)>);

impl HttpResponseStart {
    pub open spec fn view(&self) -> HeadView {
        (self.status, headers_view(self.headers@))
    }

    /// The status code of the response.
    pub fn status_code(&self) -> (r: u16)
        ensures
            r == self.status,
    {
        self.status
    }
}

/// What the head phase makes of the first outbound event (`None` where the
/// channel closed before any event arrived).
pub open spec fn response_start_of(first: Option<Event>) -> Result<HeadView, ProtocolError> {
    match first {
        None => Err(ProtocolError::ResponseStartMissing),
        Some(Event::ResponseStart { status, headers }) => if valid_status(status as int) {
            Ok((status as u16, accepted_headers(headers_view(headers@))))
        } else {
            Err(ProtocolError::InvalidStatusCode)
        },
        Some(_) => Err(ProtocolError::ResponseTypeMismatch),
    }
}

/// Whether an exec result agrees with its mathematical description.
pub open spec fn head_result_matches(
    r: Result<HttpResponseStart, ProtocolError>,
    s: Result<HeadView, ProtocolError>,
) -> bool {
    match r {
        Ok(h) => s == Ok::<HeadView, ProtocolError>(h.view()),
        Err(e) => s == Err::<HeadView, ProtocolError>(e),
    }
}

impl HttpResponseStart {
    /// Runs the head phase on the first outbound event: the event must be a
    /// response start with a status in the accepted range; header lines that
    /// do not parse are skipped.
    pub fn try_from(first: Option<Event>) -> (r: Result<HttpResponseStart, ProtocolError>)
        ensures
            head_result_matches(r, response_start_of(first)),
    {
        match first {
            None => Err(ProtocolError::ResponseStartMissing),
            Some(Event::ResponseStart { status, headers }) => {
                match check_status(status) {
                    Some(code) => {
                        let kept = accept_headers(&headers);
                        Ok(HttpResponseStart { status: code, headers: kept })
                    },
                    None => Err(ProtocolError::InvalidStatusCode),
                }
            },
            Some(_) => Err(ProtocolError::ResponseTypeMismatch),
        }
    }
}

} // verus!
