use vstd::prelude::*;

use crate::config::{spec_mode_from_header, Mode};

verus! {

/// Name of the request header through which a scrape asks for a mode.
pub const MODE_HEADER: &'static str = "EXPORTER_MODE";

/// The mode that a scrape request names explicitly, if it names one.
#[derive(Debug)]
pub struct ExplicitHeader(pub Option<Mode>);

/// What the mode header of a request yields: no header names no mode, and
/// a header is read as a mode, its error refusing the request.
pub open spec fn spec_explicit_header(value: Option<Seq<u8>>) -> Result<Option<Mode>, &'static str> {
    match value {
        None => Ok(None),
        Some(bytes) => match spec_mode_from_header(bytes) {
            Ok(m) => Ok(Some(m)),
            Err(e) => Err(e),
        },
    }
}

impl ExplicitHeader {
    /// Reads the explicit mode of a request from the bytes of its mode
    /// header, `None` when the request has no such header.
    pub fn from_header_value(value: Option<&[u8]>) -> (r: Result<ExplicitHeader, &'static str>)
        ensures
            (match r {
                Ok(h) => Ok(h.0),
                Err(e) => Err(e),
            }) == spec_explicit_header(
                match value {
                    Some(b) => Some(b@),
                    None => None,
                },
            ),
    {
        match value {
            None => Ok(ExplicitHeader(None)),
            Some(bytes) => match Mode::try_from_header(bytes) {
                Ok(m) => Ok(ExplicitHeader(Some(m))),
                Err(e) => Err(e),
            },
        }
    }
}

} // verus!
