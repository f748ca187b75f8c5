//! The byte sequences of the printer's commands.

use super::status::MediaType;
use vstd::prelude::*;

verus! {

/// Number of bytes in one raster line: the width of the print head.
pub const RASTER_LINE_LENGTH: u8 = 90;

/// Number of zero bytes that bring the printer out of a half-read command.
pub const CLEAR_LENGTH: usize = 200;

/// Every capability flag of the media descriptor, enabled.
pub const VALID_FLAGS: u8 = 0xCE;

/// Number of bytes in a media descriptor command.
pub const MEDIA_COMMAND_LENGTH: usize = 13;

/// The four bytes of a number, least significant first.
pub open spec fn le_bytes(n: u32) -> Seq<u8> {
    seq![
        (n % 256) as u8,
        (n / 256 % 256) as u8,
        (n / 65536 % 256) as u8,
        (n / 16777216) as u8,
    ]
}

/// The number that four bytes hold, least significant first.
pub open spec fn le_value(bytes: Seq<u8>) -> int {
    bytes[0] + 256 * bytes[1] + 65536 * bytes[2] + 16777216 * bytes[3]
}

/// The code that stands for a media type in a media descriptor. There is
/// none for a printer without media.
pub open spec fn media_code(media_type: MediaType) -> Option<u8> {
    match media_type {
        MediaType::ContinuousTape => Some(0x0Au8),
        MediaType::DieCutLabels => Some(0x0Bu8),
        MediaType::NoMedia => None,
    }
}

/// The clear command: zero bytes.
pub open spec fn clear_bytes() -> Seq<u8> {
    Seq::new(CLEAR_LENGTH as nat, |i: int| 0u8)
}

/// The initialize command.
pub open spec fn initialize_bytes() -> Seq<u8> {
    seq![0x1Bu8, 0x40u8]
}

/// The status request.
pub open spec fn status_request_bytes() -> Seq<u8> {
    seq![0x1Bu8, 0x69u8, 0x53u8]
}

/// The mode command, which selects raster mode.
pub open spec fn mode_bytes() -> Seq<u8> {
    seq![0x1Bu8, 0x69u8, 0x61u8, 0x01u8]
}

/// The media descriptor: flags, media code, width, length, the number of
/// raster lines that follow, and two closing bytes.
pub open spec fn media_bytes(code: u8, width: u8, length: u8, line_count: u32) -> Seq<u8> {
    seq![0x1Bu8, 0x69u8, 0x7Au8, VALID_FLAGS, code, width, length] + le_bytes(line_count)
        + seq![0x01u8, 0x00u8]
}

/// The command that enables auto-cut.
pub open spec fn auto_cut_bytes() -> Seq<u8> {
    seq![0x1Bu8, 0x69u8, 0x4Du8, 0x40u8]
}

/// The command that cuts at the end and selects the low resolution.
pub open spec fn cut_settings_bytes() -> Seq<u8> {
    seq![0x1Bu8, 0x69u8, 0x4Bu8, 0x08u8]
}

/// The margins command with the feed margin in dots.
pub open spec fn margins_bytes(feed_margin: u8) -> Seq<u8> {
    seq![0x1Bu8, 0x69u8, 0x64u8, feed_margin, 0x00u8]
}

/// A raster line behind its three header bytes.
pub open spec fn raster_bytes(line: Seq<u8>) -> Seq<u8> {
    seq![0x67u8, 0x00u8, RASTER_LINE_LENGTH] + line
}

/// The print command, which ends the job.
pub open spec fn print_bytes() -> Seq<u8> {
    seq![0x1Au8]
}

/// The code of a media type, if it has one.
pub fn media_type_code(media_type: MediaType) -> (code: Option<u8>)
    ensures
        code == media_code(media_type),
{
    match media_type {
        MediaType::ContinuousTape => Some(0x0A),
        MediaType::DieCutLabels => Some(0x0B),
        MediaType::NoMedia => None,
    }
}

/// Zero bytes that force the printer out of any partial command.
pub fn clear_command() -> (command: Vec<u8>)
    ensures
        command@ == clear_bytes(),
{
    let mut command: Vec<u8> = Vec::new();
    let mut i: usize = 0;
    while i < CLEAR_LENGTH
        invariant
            i <= CLEAR_LENGTH,
            command@.len() == i,
            forall|k: int| 0 <= k < i ==> command@[k] == 0u8,
        decreases CLEAR_LENGTH - i,
    {
        command.push(0);
        i += 1;
    }
    assert(command@ =~= clear_bytes());
    command
}

/// Resets the state of the protocol.
pub fn initialize_command() -> (command: Vec<u8>)
    ensures
        command@ == initialize_bytes(),
{
    let command = vec![0x1B, 0x40];
    assert(command@ =~= initialize_bytes());
    command
}

/// Asks the printer for a status reply.
pub fn status_request_command() -> (command: Vec<u8>)
    ensures
        command@ == status_request_bytes(),
{
    let command = vec![0x1B, 0x69, 0x53];
    assert(command@ =~= status_request_bytes());
    command
}

/// Switches the printer to raster mode.
pub fn mode_command() -> (command: Vec<u8>)
    ensures
        command@ == mode_bytes(),
{
    let command = vec![0x1B, 0x69, 0x61, 0x01];
    assert(command@ =~= mode_bytes());
    command
}

/// Describes the media and announces how many raster lines follow.
pub fn media_command(code: u8, width: u8, length: u8, line_count: u32) -> (command: Vec<u8>)
    ensures
        command@ == media_bytes(code, width, length, line_count),
{
    let b0: u8 = (line_count % 256) as u8;
    let b1: u8 = (line_count / 256 % 256) as u8;
    let b2: u8 = (line_count / 65536 % 256) as u8;
    let b3: u8 = (line_count / 16777216) as u8;
    let command = vec![
        0x1B,
        0x69,
        0x7A,
        VALID_FLAGS,
        code,
        width,
        length,
        b0,
        b1,
        b2,
        b3,
        0x01,
        0x00,
    ];
    assert(command@ =~= media_bytes(code, width, length, line_count));
    command
}

/// Reads the number of raster lines back out of a media descriptor;
/// `None` for bytes that are no media descriptor.
pub fn media_command_line_count(command: &[u8]) -> (count: Option<u32>)
    ensures
        count is Some <==> command@.len() == MEDIA_COMMAND_LENGTH && command@[0] == 0x1B
            && command@[1] == 0x69 && command@[2] == 0x7A,
        count matches Some(n) ==> n == le_value(command@.subrange(7, 11)),
{
    if command.len() != MEDIA_COMMAND_LENGTH || command[0] != 0x1B || command[1] != 0x69
        || command[2] != 0x7A {
        return None;
    }
    let n: u32 = command[7] as u32 + 256 * (command[8] as u32) + 65536 * (command[9] as u32)
        + 16777216 * (command[10] as u32);
    Some(n)
}

/// Lets the printer cut after each label.
pub fn auto_cut_command() -> (command: Vec<u8>)
    ensures
        command@ == auto_cut_bytes(),
{
    let command = vec![0x1B, 0x69, 0x4D, 0x40];
    assert(command@ =~= auto_cut_bytes());
    command
}

/// Cuts at the end of the job and selects the low resolution.
pub fn cut_settings_command() -> (command: Vec<u8>)
    ensures
        command@ == cut_settings_bytes(),
{
    let command = vec![0x1B, 0x69, 0x4B, 0x08];
    assert(command@ =~= cut_settings_bytes());
    command
}

/// Sets the feed margin.
pub fn margins_command(feed_margin: u8) -> (command: Vec<u8>)
    ensures
        command@ == margins_bytes(feed_margin),
{
    let command = vec![0x1B, 0x69, 0x64, feed_margin, 0x00];
    assert(command@ =~= margins_bytes(feed_margin));
    command
}

/// Carries one raster line.
pub fn raster_command(line: &[u8; 90]) -> (command: Vec<u8>)
    ensures
        command@ == raster_bytes(line@),
{
    let mut command: Vec<u8> = vec![0x67, 0x00, RASTER_LINE_LENGTH];
    let mut i: usize = 0;
    while i < 90
        invariant
            i <= 90,
            command@.len() == 3 + i,
            command@[0] == 0x67u8,
            command@[1] == 0x00u8,
            command@[2] == RASTER_LINE_LENGTH,
            forall|k: int| 0 <= k < i ==> command@[3 + k] == line@[k],
        decreases 90 - i,
    {
        command.push(line[i]);
        i += 1;
    }
    assert(command@ =~= raster_bytes(line@));
    command
}

/// Starts printing and ends the job.
pub fn print_command() -> (command: Vec<u8>)
    ensures
        command@ == print_bytes(),
{
    let command = vec![0x1A];
    assert(command@ =~= print_bytes());
    command
}

/// The line count that a media descriptor carries is the one it was
/// encoded with.
pub proof fn lemma_line_count_round_trip(code: u8, width: u8, length: u8, line_count: u32)
    ensures
        media_bytes(code, width, length, line_count).len() == MEDIA_COMMAND_LENGTH,
        le_value(media_bytes(code, width, length, line_count).subrange(7, 11)) == line_count,
{
    let command = media_bytes(code, width, length, line_count);
    assert(command.subrange(7, 11) =~= le_bytes(line_count));
}

} // verus!
