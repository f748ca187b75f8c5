//! The status message Brother QL printers answer with.
//!
//! A status reply names the printer model, the loaded media, the current
//! operation and any errors that have occurred.

use super::constants::{label_data, label_of, Label};
use vstd::prelude::*;

verus! {

/// Number of bytes in a status reply.
pub const STATUS_SIZE: usize = 32;

/// First byte of every status reply.
pub const STATUS_MARKER: u8 = 0x80;

/// What went wrong while talking to the printer.
#[derive(Clone, Copy, Debug, PartialEq, Eq, Structural)]
pub enum ProtocolError {
    /// The transport failed to move the bytes.
    Transport,
    /// A reply was not 32 bytes long or did not start with the marker.
    MalformedReply,
    /// The printer reports media that the geometry table does not know.
    UnknownMedia,
    /// The printer reports that no media is loaded.
    NoMediaLoaded,
    /// The sequencer was handed an event that it was not waiting for.
    OutOfSequence,
}

impl ProtocolError {
    /// What the error says in words.
    pub open spec fn spec_message(self) -> Seq<char> {
        match self {
            ProtocolError::Transport => "The transport failed"@,
            ProtocolError::MalformedReply => "Invalid response received from printer"@,
            ProtocolError::UnknownMedia => "Unknown media loaded in printer"@,
            ProtocolError::NoMediaLoaded => "No media loaded into printer"@,
            ProtocolError::OutOfSequence => "The print job did not wait for this event"@,
        }
    }

    /// What the error says in words.
    pub fn message(&self) -> (text: &'static str)
        ensures
            text@ == self.spec_message(),
    {
        match self {
            ProtocolError::Transport => "The transport failed",
            ProtocolError::MalformedReply => "Invalid response received from printer",
            ProtocolError::UnknownMedia => "Unknown media loaded in printer",
            ProtocolError::NoMediaLoaded => "No media loaded into printer",
            ProtocolError::OutOfSequence => "The print job did not wait for this event",
        }
    }
}

/// The kind of media that the printer reports.
#[derive(Clone, Copy, Debug, PartialEq, Eq, Structural)]
pub enum MediaType {
    /// No media, or media that was removed.
    NoMedia,
    ContinuousTape,
    DieCutLabels,
}

/// The media that the printer reports, with width and length in
/// millimetres as they stand in the reply.
#[derive(Clone, Copy, Debug, PartialEq, Eq, Structural)]
pub struct Media {
    pub media_type: MediaType,
    pub width: u8,
    pub length: u8,
}

impl Media {
    /// The length to look the media up with: a length of zero signals
    /// continuous tape, whatever the media type says.
    pub open spec fn lookup_length(self) -> Option<u8> {
        if self.length == 0 {
            None
        } else {
            Some(self.length)
        }
    }

    /// The geometry of this media, if the table knows it.
    pub open spec fn label(self) -> Option<Label> {
        label_of(self.width, self.lookup_length())
    }

    /// The geometry of this media, if the table knows it.
    pub fn find_label(&self) -> (label: Option<Label>)
        ensures
            label == self.label(),
    {
        let length = if self.length == 0 {
            None
        } else {
            Some(self.length)
        };
        label_data(self.width, length)
    }

    /// The geometry of media that the table knows.
    pub fn to_label(&self) -> (label: Label)
        requires
            self.label() is Some,
        ensures
            Some(label) == self.label(),
    {
        self.find_label().unwrap()
    }
}

/// What a status reply is about.
#[derive(Clone, Copy, Debug, PartialEq, Eq, Structural)]
pub enum StatusType {
    ReplyToStatusRequest,
    PrintingCompleted,
    ErrorOccurred,
    Notification,
    PhaseChange,
}

/// A decoded status reply.
#[derive(Debug)]
pub struct Response {
    pub model: &'static str,
    pub status_type: StatusType,
    pub errors: Vec<&'static str>,
    pub media: Media,
}

/// What a status reply says, with its texts as sequences of characters.
pub struct ResponseView {
    pub model: Seq<char>,
    pub status_type: StatusType,
    pub errors: Seq<Seq<char>>,
    pub media: Media,
}

/// The characters of each text of a list.
pub open spec fn texts(list: Seq<&'static str>) -> Seq<Seq<char>> {
    Seq::new(list.len(), |i: int| list[i]@)
}

impl View for Response {
    type V = ResponseView;

    open spec fn view(&self) -> ResponseView {
        ResponseView {
            model: self.model@,
            status_type: self.status_type,
            errors: texts(self.errors@),
            media: self.media,
        }
    }
}

/// The model name for the model code of a reply.
pub open spec fn model_name(code: u8) -> Seq<char> {
    if code == 0x4F {
        "QL-500/550"@
    } else if code == 0x31 {
        "QL-560"@
    } else if code == 0x32 {
        "QL-570"@
    } else if code == 0x33 {
        "QL-580N"@
    } else if code == 0x51 {
        "QL-650TD"@
    } else if code == 0x35 {
        "QL-700"@
    } else if code == 0x50 {
        "QL-1050"@
    } else if code == 0x34 {
        "QL-1060N"@
    } else {
        "Unknown"@
    }
}

/// The description of an error if its flag is set in `byte`, nothing
/// otherwise.
pub open spec fn flag_message(byte: u8, flag: u8, message: Seq<char>) -> Seq<Seq<char>> {
    if byte & flag != 0 {
        seq![message]
    } else {
        Seq::empty()
    }
}

/// The descriptions of the errors flagged in the two error bytes of a
/// reply: those of the first byte in the order of the catalog, then
/// those of the second.
pub open spec fn error_messages(first: u8, second: u8) -> Seq<Seq<char>> {
    flag_message(first, 0x01, "No media when printing"@)
        + flag_message(first, 0x02, "End of media"@)
        + flag_message(first, 0x04, "Tape cutter jam"@)
        + flag_message(first, 0x10, "Main unit in use"@)
        + flag_message(first, 0x80, "Fan doesn't work"@)
        + flag_message(second, 0x04, "Transmission error"@)
        + flag_message(second, 0x10, "Cover open"@)
        + flag_message(second, 0x40, "Cannot feed"@)
        + flag_message(second, 0x80, "System error"@)
}

/// The media type for the media code of a reply.
pub open spec fn media_type_of(code: u8) -> MediaType {
    if code == 0x0A {
        MediaType::ContinuousTape
    } else if code == 0x0B {
        MediaType::DieCutLabels
    } else {
        MediaType::NoMedia
    }
}

/// The status type for the status code of a reply. The printer sends no
/// code but the five named ones; any other counts as a notification.
pub open spec fn status_type_of(code: u8) -> StatusType {
    if code == 0x00 {
        StatusType::ReplyToStatusRequest
    } else if code == 0x01 {
        StatusType::PrintingCompleted
    } else if code == 0x02 {
        StatusType::ErrorOccurred
    } else if code == 0x06 {
        StatusType::PhaseChange
    } else {
        StatusType::Notification
    }
}

/// A reply is accepted only if it has the full size and starts with the
/// marker.
pub open spec fn is_status_reply(bytes: Seq<u8>) -> bool {
    bytes.len() == STATUS_SIZE && bytes[0] == STATUS_MARKER
}

/// What the bytes of a reply decode to.
pub open spec fn decoded(bytes: Seq<u8>) -> Result<ResponseView, ProtocolError> {
    if is_status_reply(bytes) {
        Ok(
            ResponseView {
                model: model_name(bytes[4]),
                status_type: status_type_of(bytes[18]),
                errors: error_messages(bytes[8], bytes[9]),
                media: Media {
                    media_type: media_type_of(bytes[11]),
                    width: bytes[10],
                    length: bytes[17],
                },
            },
        )
    } else {
        Err(ProtocolError::MalformedReply)
    }
}

/// Whether `reply` is what the bytes of a status reply decode to.
pub open spec fn decodes_to(bytes: Seq<u8>, reply: Result<Response, ProtocolError>) -> bool {
    match reply {
        Ok(response) => decoded(bytes) == Ok::<ResponseView, ProtocolError>(response@),
        Err(error) => decoded(bytes) == Err::<ResponseView, ProtocolError>(error),
    }
}

fn error_if(byte: u8, flag: u8, message: &'static str, errors: &mut Vec<&'static str>)
    ensures
        texts(final(errors)@) == texts(old(errors)@) + flag_message(byte, flag, message@),
{
    if byte & flag != 0 {
        errors.push(message);
    }
    assert(texts(errors@) =~= texts(old(errors)@) + flag_message(byte, flag, message@));
}

/// Decodes a status reply.
pub fn decode(bytes: &[u8]) -> (reply: Result<Response, ProtocolError>)
    ensures
        decodes_to(bytes@, reply),
{
    if bytes.len() != STATUS_SIZE || bytes[0] != STATUS_MARKER {
        return Err(ProtocolError::MalformedReply);
    }
    let model = match bytes[4] {
        0x4F => "QL-500/550",
        0x31 => "QL-560",
        0x32 => "QL-570",
        0x33 => "QL-580N",
        0x51 => "QL-650TD",
        0x35 => "QL-700",
        0x50 => "QL-1050",
        0x34 => "QL-1060N",
        _ => "Unknown",
    };

    let mut errors = Vec::new();
    assert(texts(errors@) =~= Seq::empty());
    error_if(bytes[8], 0x01, "No media when printing", &mut errors);
    error_if(bytes[8], 0x02, "End of media", &mut errors);
    error_if(bytes[8], 0x04, "Tape cutter jam", &mut errors);
    error_if(bytes[8], 0x10, "Main unit in use", &mut errors);
    error_if(bytes[8], 0x80, "Fan doesn't work", &mut errors);
    error_if(bytes[9], 0x04, "Transmission error", &mut errors);
    error_if(bytes[9], 0x10, "Cover open", &mut errors);
    error_if(bytes[9], 0x40, "Cannot feed", &mut errors);
    error_if(bytes[9], 0x80, "System error", &mut errors);
    assert(texts(errors@) =~= error_messages(bytes[8], bytes[9]));

    let width = bytes[10];
    let length = bytes[17];

    let media_type = match bytes[11] {
        0x0A => MediaType::ContinuousTape,
        0x0B => MediaType::DieCutLabels,
        _ => MediaType::NoMedia,
    };

    let status_type = match bytes[18] {
        0x00 => StatusType::ReplyToStatusRequest,
        0x01 => StatusType::PrintingCompleted,
        0x02 => StatusType::ErrorOccurred,
        0x05 => StatusType::Notification,
        0x06 => StatusType::PhaseChange,
        _ => StatusType::Notification,
    };

    Ok(Response { model, status_type, errors, media: Media { media_type, width, length } })
}

/// The geometry of the media that a reply reports.
pub fn current_label(response: &Response) -> (label: Result<Label, ProtocolError>)
    ensures
        label == match response.media.label() {
            Some(label) => Ok::<Label, ProtocolError>(label),
            None => Err::<Label, ProtocolError>(ProtocolError::UnknownMedia),
        },
{
    match response.media.find_label() {
        Some(label) => Ok(label),
        None => Err(ProtocolError::UnknownMedia),
    }
}

/// Decoding is a function of the bytes: two results of decoding the same
/// bytes say the same.
pub proof fn lemma_decode_is_deterministic(
    bytes: Seq<u8>,
    first: Result<Response, ProtocolError>,
    second: Result<Response, ProtocolError>,
)
    requires
        decodes_to(bytes, first),
        decodes_to(bytes, second),
    ensures
        first is Ok <==> second is Ok,
        first is Ok ==> first.unwrap()@ == second.unwrap()@,
        first is Err ==> first.unwrap_err() == second.unwrap_err(),
{
}

/// Bytes of another length than that of a status reply, or with another
/// first byte than the marker, are rejected as a whole, and nothing else
/// is.
pub proof fn lemma_malformed_reply(bytes: Seq<u8>)
    ensures
        decoded(bytes) is Err <==> bytes.len() != STATUS_SIZE || bytes[0] != STATUS_MARKER,
        decoded(bytes) is Err ==> decoded(bytes) == Err::<ResponseView, ProtocolError>(
            ProtocolError::MalformedReply,
        ),
{
}

/// A reply without an error flag carries no error, and a reply carries
/// no error only if none of the nine flags is set.
pub proof fn lemma_no_flag_no_error(first: u8, second: u8)
    ensures
        error_messages(first, second).len() == 0 <==> first & 0x97 == 0 && second & 0xD4 == 0,
        error_messages(first, second).len() <= 9,
{
    assert(first & 0x97 == 0 <==> first & 0x01 == 0 && first & 0x02 == 0 && first & 0x04 == 0
        && first & 0x10 == 0 && first & 0x80 == 0) by (bit_vector);
    assert(second & 0xD4 == 0 <==> second & 0x04 == 0 && second & 0x10 == 0 && second & 0x40 == 0
        && second & 0x80 == 0) by (bit_vector);
}

/// The place of an error description in the catalog of the nine errors,
/// or 9 for any other text.
pub open spec fn catalog_rank(message: Seq<char>) -> int {
    if message == "No media when printing"@ {
        0
    } else if message == "End of media"@ {
        1
    } else if message == "Tape cutter jam"@ {
        2
    } else if message == "Main unit in use"@ {
        3
    } else if message == "Fan doesn't work"@ {
        4
    } else if message == "Transmission error"@ {
        5
    } else if message == "Cover open"@ {
        6
    } else if message == "Cannot feed"@ {
        7
    } else if message == "System error"@ {
        8
    } else {
        9
    }
}

/// Whether the texts of a list are error descriptions from the first
/// `bound` places of the catalog, in the order of the catalog.
spec fn in_catalog_order(list: Seq<Seq<char>>, bound: int) -> bool {
    &&& forall|i: int| 0 <= i < list.len() ==> 0 <= catalog_rank(#[trigger] list[i]) < bound
    &&& forall|i: int, j: int|
        0 <= i < j < list.len() ==> catalog_rank(#[trigger] list[i]) < catalog_rank(
            #[trigger] list[j],
        )
}

proof fn lemma_catalog_ranks()
    ensures
        catalog_rank("No media when printing"@) == 0,
        catalog_rank("End of media"@) == 1,
        catalog_rank("Tape cutter jam"@) == 2,
        catalog_rank("Main unit in use"@) == 3,
        catalog_rank("Fan doesn't work"@) == 4,
        catalog_rank("Transmission error"@) == 5,
        catalog_rank("Cover open"@) == 6,
        catalog_rank("Cannot feed"@) == 7,
        catalog_rank("System error"@) == 8,
{
    reveal_strlit("No media when printing");
    reveal_strlit("End of media");
    reveal_strlit("Tape cutter jam");
    reveal_strlit("Main unit in use");
    reveal_strlit("Fan doesn't work");
    reveal_strlit("Transmission error");
    reveal_strlit("Cover open");
    reveal_strlit("Cannot feed");
    reveal_strlit("System error");
    assert("No media when printing"@.len() == 22);
    assert("End of media"@.len() == 12);
    assert("Tape cutter jam"@.len() == 15);
    assert("Main unit in use"@.len() == 16);
    assert("Fan doesn't work"@.len() == 16);
    assert("Transmission error"@.len() == 18);
    assert("Cover open"@.len() == 10);
    assert("Cannot feed"@.len() == 11);
    assert("System error"@.len() == 12);
    // Texts of the same length differ in their first character.
    assert("End of media"@[0] != "System error"@[0]);
    assert("Main unit in use"@[0] != "Fan doesn't work"@[0]);
}

proof fn lemma_next_in_catalog(
    list: Seq<Seq<char>>,
    bound: int,
    byte: u8,
    flag: u8,
    message: Seq<char>,
)
    requires
        in_catalog_order(list, bound),
        catalog_rank(message) == bound,
    ensures
        in_catalog_order(list + flag_message(byte, flag, message), bound + 1),
{
    let longer = list + flag_message(byte, flag, message);
    assert forall|i: int| 0 <= i < longer.len() implies 0 <= catalog_rank(#[trigger] longer[i])
        < bound + 1 by {
        if i < list.len() {
            assert(longer[i] == list[i]);
        }
    }
    assert forall|i: int, j: int| 0 <= i < j < longer.len() implies catalog_rank(
        #[trigger] longer[i],
    ) < catalog_rank(#[trigger] longer[j]) by {
        assert(longer[i] == list[i]);
        if j < list.len() {
            assert(longer[j] == list[j]);
        }
    }
}

/// The errors of a reply follow the catalog: whichever flags are set, an
/// error that stands earlier in the catalog comes earlier in the list,
/// and no error comes twice.
pub proof fn lemma_errors_in_catalog_order(first: u8, second: u8)
    ensures
        ({
            let list = error_messages(first, second);
            &&& forall|i: int| 0 <= i < list.len() ==> catalog_rank(#[trigger] list[i]) < 9
            &&& forall|i: int, j: int|
                0 <= i < j < list.len() ==> catalog_rank(#[trigger] list[i]) < catalog_rank(
                    #[trigger] list[j],
                ) && list[i] != list[j]
        }),
{
    lemma_catalog_ranks();
    let list = flag_message(first, 0x01, "No media when printing"@);
    assert(in_catalog_order(Seq::<Seq<char>>::empty(), 0));
    lemma_next_in_catalog(Seq::empty(), 0, first, 0x01, "No media when printing"@);
    assert(Seq::<Seq<char>>::empty() + list =~= list);
    lemma_next_in_catalog(list, 1, first, 0x02, "End of media"@);
    let list = list + flag_message(first, 0x02, "End of media"@);
    lemma_next_in_catalog(list, 2, first, 0x04, "Tape cutter jam"@);
    let list = list + flag_message(first, 0x04, "Tape cutter jam"@);
    lemma_next_in_catalog(list, 3, first, 0x10, "Main unit in use"@);
    let list = list + flag_message(first, 0x10, "Main unit in use"@);
    lemma_next_in_catalog(list, 4, first, 0x80, "Fan doesn't work"@);
    let list = list + flag_message(first, 0x80, "Fan doesn't work"@);
    lemma_next_in_catalog(list, 5, second, 0x04, "Transmission error"@);
    let list = list + flag_message(second, 0x04, "Transmission error"@);
    lemma_next_in_catalog(list, 6, second, 0x10, "Cover open"@);
    let list = list + flag_message(second, 0x10, "Cover open"@);
    lemma_next_in_catalog(list, 7, second, 0x40, "Cannot feed"@);
    let list = list + flag_message(second, 0x40, "Cannot feed"@);
    lemma_next_in_catalog(list, 8, second, 0x80, "System error"@);
    let list = list + flag_message(second, 0x80, "System error"@);
    assert(list == error_messages(first, second));
    assert(in_catalog_order(error_messages(first, second), 9));
}

/// The errors come in the order of the catalog: with the first and the
/// last flag of the first error byte set, the reply carries exactly
/// these two errors, the first one first.
pub proof fn lemma_error_order()
    ensures
        error_messages(0x81, 0x00) == seq!["No media when printing"@, "Fan doesn't work"@],
        error_messages(0x00, 0x00) == Seq::<Seq<char>>::empty(),
{
    assert(0x81u8 & 0x01 != 0 && 0x81u8 & 0x02 == 0 && 0x81u8 & 0x04 == 0 && 0x81u8 & 0x10 == 0
        && 0x81u8 & 0x80 != 0) by (bit_vector);
    assert(0x00u8 & 0x01 == 0 && 0x00u8 & 0x02 == 0 && 0x00u8 & 0x04 == 0 && 0x00u8 & 0x10 == 0
        && 0x00u8 & 0x40 == 0 && 0x00u8 & 0x80 == 0) by (bit_vector);
    assert(error_messages(0x81, 0x00) =~= seq!["No media when printing"@, "Fan doesn't work"@]);
    assert(error_messages(0x00, 0x00) =~= Seq::<Seq<char>>::empty());
}

} // verus!
