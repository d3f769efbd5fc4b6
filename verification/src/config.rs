use vstd::prelude::*;
use vstd::std_specs::convert::TryFromSpecImpl;
use vstd::string::*;

use crate::text::{all_ascii, ascii_chars, ascii_str, lemma_encode_ascii_chars};

verus! {

/// How much of the cluster a scrape covers.
#[derive(PartialEq, Eq, Structural, Clone, Copy, Debug)]
pub enum Mode {
    /// Cluster health and shard statistics.
    Standard,
    /// Only a reachability check of the node.
    Simple,
}

/// Settings of the exporter.
#[derive(Debug, Clone)]
pub struct Conf {
    /// Base address of the Elasticsearch node, of the form `http://ip:port`.
    pub addr: String,
    /// User name for the node; empty when none is configured.
    pub username: String,
    /// Password for the node; empty when none is configured.
    pub password: String,
    /// The mode a scrape runs in when the request names none.
    pub exporter_mode: Mode,
}

/// Error text for a mode name that is neither `standard` nor `simple`.
pub const INVALID_MODE: &'static str = "Invalid mode value";

/// The mode that a textual mode name denotes: `standard` and `simple` are
/// the only names, anything else is refused with [`INVALID_MODE`].
pub open spec fn spec_mode_from_text(text: Seq<char>) -> Result<Mode, &'static str> {
    if text == "standard"@ {
        Ok(Mode::Standard)
    } else if text == "simple"@ {
        Ok(Mode::Simple)
    } else {
        Err(INVALID_MODE)
    }
}

/// Error text for a header value that holds other than visible ASCII.
pub const INVALID_HEADER: &'static str = "Invalid header value";

/// A byte that a header value may hold and still be read as text: visible
/// ASCII or a horizontal tab.
pub open spec fn is_visible_ascii(b: u8) -> bool {
    (32 <= b && b < 127) || b == 9
}

/// True when every byte of a header value may be read as text.
pub open spec fn all_visible_ascii(bytes: Seq<u8>) -> bool {
    forall|i: int| 0 <= i < bytes.len() ==> is_visible_ascii(#[trigger] bytes[i])
}

/// The mode that a header value names: a value with a byte other than
/// visible ASCII is refused with [`INVALID_HEADER`], any other value is read
/// as a mode name.
pub open spec fn spec_mode_from_header(bytes: Seq<u8>) -> Result<Mode, &'static str> {
    if all_visible_ascii(bytes) {
        spec_mode_from_text(ascii_chars(bytes))
    } else {
        Err(INVALID_HEADER)
    }
}

impl Mode {
    /// Parses a mode name: `standard` and `simple` are the only accepted names.
    pub fn try_from_str(value: &str) -> (r: Result<Mode, &'static str>)
        ensures
            r == spec_mode_from_text(value@),
            value@ == "standard"@ ==> r == Ok::<Mode, &'static str>(Mode::Standard),
            value@ == "simple"@ ==> r == Ok::<Mode, &'static str>(Mode::Simple),
            value@ != "standard"@ && value@ != "simple"@ ==> r == Err::<Mode, &'static str>(
                INVALID_MODE,
            ),
    {
        proof {
            reveal_strlit("standard");
            reveal_strlit("simple");
            assert("standard"@.len() != "simple"@.len());
        }
        let owned = value.to_owned();
        if owned == String::from_str("standard") {
            Ok(Mode::Standard)
        } else if owned == String::from_str("simple") {
            Ok(Mode::Simple)
        } else {
            Err(INVALID_MODE)
        }
    }

    /// Reads the mode that the bytes of a request header name.
    pub fn try_from_header(bytes: &[u8]) -> (r: Result<Mode, &'static str>)
        ensures
            r == spec_mode_from_header(bytes@),
    {
        let mut i: usize = 0;
        while i < bytes.len()
            invariant
                0 <= i <= bytes@.len(),
                forall|j: int| 0 <= j < i ==> is_visible_ascii(#[trigger] bytes@[j]),
            decreases bytes@.len() - i,
        {
            let b: u8 = bytes[i];
            if !((32 <= b && b < 127) || b == 9) {
                assert(!is_visible_ascii(bytes@[i as int]));
                return Err(INVALID_HEADER);
            }
            i = i + 1;
        }
        let text = ascii_str(bytes);
        Mode::try_from_str(text)
    }
}

impl<'a> TryFrom<&'a str> for Mode {
    type Error = &'static str;

    fn try_from(value: &'a str) -> (r: Result<Mode, &'static str>) {
        Mode::try_from_str(value)
    }
}

impl<'a> TryFromSpecImpl<&'a str> for Mode {
    open spec fn obeys_try_from_spec() -> bool {
        true
    }

    open spec fn try_from_spec(value: &'a str) -> Result<Mode, &'static str> {
        spec_mode_from_text(value@)
    }
}

impl<'a> TryFrom<&'a [u8]> for Mode {
    type Error = &'static str;

    fn try_from(value: &'a [u8]) -> (r: Result<Mode, &'static str>) {
        Mode::try_from_header(value)
    }
}

impl<'a> TryFromSpecImpl<&'a [u8]> for Mode {
    open spec fn obeys_try_from_spec() -> bool {
        true
    }

    open spec fn try_from_spec(value: &'a [u8]) -> Result<Mode, &'static str> {
        spec_mode_from_header(value@)
    }
}

/// The mode of a header value is the mode of the text it holds: a value
/// that holds only visible ASCII is the UTF-8 encoding of the characters
/// its bytes spell, and is read as that mode name; any other value is
/// refused with [`INVALID_HEADER`] before it is read.
pub proof fn lemma_header_mode_is_text_mode(bytes: Seq<u8>)
    ensures
        all_visible_ascii(bytes) ==> {
            &&& vstd::utf8::encode_utf8(ascii_chars(bytes)) == bytes
            &&& spec_mode_from_header(bytes) == spec_mode_from_text(ascii_chars(bytes))
        },
        !all_visible_ascii(bytes) ==> spec_mode_from_header(bytes) == Err::<Mode, &'static str>(
            INVALID_HEADER,
        ),
{
    if all_visible_ascii(bytes) {
        assert(all_ascii(bytes)) by {
            assert forall|i: int| 0 <= i < bytes.len() implies #[trigger] bytes[i] < 128 by {
                assert(is_visible_ascii(bytes[i]));
            }
        }
        lemma_encode_ascii_chars(bytes);
    }
}

} // verus!
