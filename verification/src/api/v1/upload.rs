//! Upload in chunks: a file arrives as numbered pieces, each in base64, and
//! a table remembers which pieces of which file have come.
//!
//! A piece is taken in two steps, with the storing of its bytes between
//! them. First its data is decoded: a piece whose data is not base64 is
//! refused there, before anything is stored or recorded. Then, once the
//! caller has stored the bytes, the decoded piece is recorded in the table
//! and the reply is written. The second step takes only what the first
//! handed out.

use vstd::hash_map::StringHashMap;
use vstd::prelude::*;
use vstd::string::StringExecFns;
use vstd::utf8::encode_utf8;

use base64::engine::general_purpose::STANDARD;
use base64::Engine;

use crate::text::decimal;
use crate::text::push_digits;

verus! {

/// One piece of a file, as a client sends it.
#[derive(Debug, Clone, PartialEq, Eq, Default)]
pub struct UploadRequest {
    pub filename: String,
    pub chunk_id: usize,
    pub total_chunks: usize,
    /// The piece's bytes in base64.
    pub data: String,
}

/// Why a piece was not taken.
#[derive(Clone, Copy, Debug, PartialEq, Eq, Structural)]
pub enum UploadError {
    /// The data is not base64.
    Decode,
    /// The piece's number is not below the number of pieces that the file
    /// was announced with.
    ChunkOutOfRange,
}

/// What standard base64 text with padding stands for, or `None` where the
/// text is not well-formed.
pub uninterp spec fn base64_decoded(text: Seq<u8>) -> Option<Seq<u8>>;

/// Decodes through `base64::engine::general_purpose::STANDARD.decode`: the
/// standard alphabet, with padding.
#[verifier::external_body]
fn base64_decode(text: &[u8]) -> (bytes: Option<Vec<u8>>)
    ensures
        match bytes {
            Some(b) => base64_decoded(text@) == Some(b@),
            None => base64_decoded(text@) is None,
        },
{
    STANDARD.decode(text).ok()
}

/// The bytes that a request carries.
pub open spec fn payload_of(request: UploadRequest) -> Option<Seq<u8>> {
    base64_decoded(encode_utf8(request.data@))
}

/// A piece whose data has been decoded: the request as it came, and the
/// bytes that its data stands for. Only [`decode_chunk`] makes one, so a
/// piece that could not be decoded never gets as far as the table.
#[derive(Debug, PartialEq, Eq)]
pub struct DecodedChunk {
    request: UploadRequest,
    bytes: Vec<u8>,
}

impl DecodedChunk {
    /// The bytes are what the request's data stands for.
    #[verifier::type_invariant]
    spec fn decoded(self) -> bool {
        payload_of(self.request) == Some(self.bytes@)
    }

    /// The request that the piece came with.
    pub closed spec fn spec_request(&self) -> UploadRequest {
        self.request
    }

    /// The decoded bytes of the piece.
    pub closed spec fn spec_bytes(&self) -> Seq<u8> {
        self.bytes@
    }

    /// The request that the piece came with.
    pub fn request(&self) -> (request: &UploadRequest)
        ensures
            *request == self.spec_request(),
    {
        &self.request
    }

    /// The bytes to store: what the request's data stands for.
    pub fn bytes(&self) -> (bytes: &Vec<u8>)
        ensures
            bytes@ == self.spec_bytes(),
            payload_of(self.spec_request()) == Some(bytes@),
    {
        proof {
            use_type_invariant(self);
        }
        &self.bytes
    }
}

/// Decodes the piece that `request` carries. It fails with `Decode`, and
/// only so, where the data is not well-formed base64; otherwise it hands
/// back the request together with the bytes that its data stands for.
pub fn decode_chunk(request: UploadRequest) -> (r: Result<DecodedChunk, UploadError>)
    ensures
        match payload_of(request) {
            Some(bytes) => {
                &&& r matches Ok(chunk)
                &&& chunk.spec_request() == request
                &&& chunk.spec_bytes() == bytes
            },
            None => r matches Err(e) && e == UploadError::Decode,
        },
{
    match decoded_or_error(base64_decode(request.data.as_str().as_bytes())) {
        Ok(bytes) => Ok(DecodedChunk { request, bytes }),
        Err(e) => Err(e),
    }
}

/// The outcome of decoding: the bytes where there are any, `Decode` where
/// there are none.
pub fn decoded_or_error(decoded: Option<Vec<u8>>) -> (r: Result<Vec<u8>, UploadError>)
    ensures
        match decoded {
            Some(bytes) => r == Ok::<Vec<u8>, UploadError>(bytes),
            None => r == Err::<Vec<u8>, UploadError>(UploadError::Decode),
        },
{
    match decoded {
        Some(bytes) => Ok(bytes),
        None => Err(UploadError::Decode),
    }
}

/// The reply to a request whose data could not be decoded.
pub fn decode_error_message() -> (message: String)
    ensures
        message@ == "Error decoding base64 data"@,
{
    String::from_str("Error decoding base64 data")
}

/// Which pieces of which file have come: for each file name one flag per
/// piece.
pub struct FileParts {
    parts: StringHashMap<Vec<bool>>,
}

impl View for FileParts {
    type V = Map<Seq<char>, Seq<bool>>;

    closed spec fn view(&self) -> Map<Seq<char>, Seq<bool>> {
        self.parts@.map_values(|flags: Vec<bool>| flags@)
    }
}

/// A row of `total` flags, none of them set.
pub open spec fn none_received(total: nat) -> Seq<bool> {
    Seq::new(total, |i: int| false)
}

/// Whether every flag is set.
pub open spec fn all_received(flags: Seq<bool>) -> bool {
    forall|i: int| 0 <= i < flags.len() ==> flags[i]
}

/// The flags of `filename` before a piece is recorded: those the table has,
/// or a fresh row of `total` where the file is new.
pub open spec fn flags_before(
    table: Map<Seq<char>, Seq<bool>>,
    filename: Seq<char>,
    total: nat,
) -> Seq<bool> {
    if table.contains_key(filename) {
        table[filename]
    } else {
        none_received(total)
    }
}

/// A row of `total` flags, none of them set.
fn fresh_flags(total: usize) -> (flags: Vec<bool>)
    ensures
        flags@ == none_received(total as nat),
{
    let mut flags: Vec<bool> = Vec::new();
    while flags.len() < total
        invariant
            flags.len() <= total,
            forall|i: int| 0 <= i < flags.len() ==> !flags@[i],
        decreases total - flags.len(),
    {
        flags.push(false);
    }
    assert(flags@ =~= none_received(total as nat));
    flags
}

/// A copy of a row of flags.
fn copy_flags(flags: &Vec<bool>) -> (copy: Vec<bool>)
    ensures
        copy@ == flags@,
{
    let mut copy: Vec<bool> = Vec::new();
    let mut i: usize = 0;
    while i < flags.len()
        invariant
            i <= flags.len(),
            copy@ == flags@.take(i as int),
        decreases flags.len() - i,
    {
        copy.push(flags[i]);
        assert(copy@ =~= flags@.take(i + 1));
        i += 1;
    }
    assert(flags@.take(flags.len() as int) =~= flags@);
    copy
}

/// Whether every flag of the row is set.
fn every_flag_set(flags: &Vec<bool>) -> (all: bool)
    ensures
        all == all_received(flags@),
{
    let mut i: usize = 0;
    while i < flags.len()
        invariant
            i <= flags.len(),
            forall|j: int| 0 <= j < i ==> flags@[j],
        decreases flags.len() - i,
    {
        if !flags[i] {
            return false;
        }
        i += 1;
    }
    true
}

impl FileParts {
    /// A table that knows of no file.
    pub fn new() -> (table: FileParts)
        ensures
            table@ == Map::<Seq<char>, Seq<bool>>::empty(),
    {
        let table = FileParts { parts: StringHashMap::new() };
        assert(table@ =~= Map::<Seq<char>, Seq<bool>>::empty());
        table
    }

    /// Whether the table knows of `filename`.
    pub fn knows(&self, filename: &str) -> (known: bool)
        ensures
            known == self@.contains_key(filename@),
    {
        self.parts.contains_key(filename)
    }

    /// The flags of `filename`, where the table knows of it.
    pub fn flags(&self, filename: &str) -> (flags: Option<Vec<bool>>)
        ensures
            match flags {
                Some(f) => self@.contains_key(filename@) && f@ == self@[filename@],
                None => !self@.contains_key(filename@),
            },
    {
        match self.parts.get(filename) {
            Some(found) => Some(copy_flags(found)),
            None => None,
        }
    }

    /// Records that piece `chunk_id` of `filename` has come and says whether
    /// the file is now complete.
    ///
    /// A file that the table does not know yet is entered with
    /// `total_chunks` flags; for a known file `total_chunks` is not looked
    /// at. A piece whose number is not below the number of flags is refused:
    /// the file stays as entered and no flag changes.
    pub fn record(&mut self, filename: &str, chunk_id: usize, total_chunks: usize) -> (r: Result<
        bool,
        UploadError,
    >)
        ensures
            ({
                let flags = flags_before(old(self)@, filename@, total_chunks as nat);
                if chunk_id < flags.len() {
                    let now = flags.update(chunk_id as int, true);
                    &&& r == Ok::<bool, UploadError>(all_received(now))
                    &&& final(self)@ == old(self)@.insert(filename@, now)
                } else {
                    &&& r == Err::<bool, UploadError>(UploadError::ChunkOutOfRange)
                    &&& final(self)@ == old(self)@.insert(filename@, flags)
                }
            }),
    {
        let mut flags = match self.parts.get(filename) {
            Some(found) => copy_flags(found),
            None => fresh_flags(total_chunks),
        };
        let ghost before = flags@;
        assert(before == flags_before(old(self)@, filename@, total_chunks as nat));
        let outcome = if chunk_id < flags.len() {
            flags.set(chunk_id, true);
            Ok(every_flag_set(&flags))
        } else {
            Err(UploadError::ChunkOutOfRange)
        };
        let ghost kept = flags@;
        self.parts.insert(filename.to_owned(), flags);
        assert(final(self)@ =~= old(self)@.insert(filename@, kept));
        outcome
    }
}

/// The reply to a piece that was taken: `Chunk 3/5 received for a.bin`.
pub open spec fn chunk_message_text(chunk_id: nat, total_chunks: nat, filename: Seq<char>) -> Seq<
    char,
> {
    "Chunk "@ + decimal(chunk_id as int) + "/"@ + decimal(total_chunks as int)
        + " received for "@ + filename
}

/// The reply to a piece that was taken.
pub fn chunk_message(chunk_id: usize, total_chunks: usize, filename: &str) -> (message: String)
    ensures
        message@ == chunk_message_text(chunk_id as nat, total_chunks as nat, filename@),
{
    let mut message = String::from_str("Chunk ");
    push_digits(&mut message, chunk_id as u64);
    message.append("/");
    push_digits(&mut message, total_chunks as u64);
    message.append(" received for ");
    message.append(filename);
    message
}

/// What the server answers to a piece that was taken.
#[derive(Debug, Clone, PartialEq, Eq)]
pub struct ChunkReceipt {
    /// Whether every piece of the file has now come.
    pub complete: bool,
    pub message: String,
}

/// Takes a decoded piece whose bytes have been stored: records it in
/// `table` and writes the reply. A piece is one that [`decode_chunk`]
/// accepted, so its data is well-formed base64; a request whose data is not
/// gets `Decode` there and never reaches a table. Of the pieces that come
/// this far, the function fails with `ChunkOutOfRange`, and only so, where
/// the piece's number is not below the number of flags of its file.
pub fn upload_file(table: &mut FileParts, chunk: &DecodedChunk) -> (r: Result<
    ChunkReceipt,
    UploadError,
>)
    ensures
        payload_of(chunk.spec_request()) == Some(chunk.spec_bytes()),
        ({
            let request = chunk.spec_request();
            let flags = flags_before(old(table)@, request.filename@, request.total_chunks as nat);
            if request.chunk_id < flags.len() {
                let now = flags.update(request.chunk_id as int, true);
                &&& r matches Ok(receipt)
                &&& receipt.complete == all_received(now)
                &&& receipt.message@ == chunk_message_text(
                    request.chunk_id as nat,
                    request.total_chunks as nat,
                    request.filename@,
                )
                &&& final(table)@ == old(table)@.insert(request.filename@, now)
            } else {
                &&& r matches Err(e)
                &&& e == UploadError::ChunkOutOfRange
                &&& final(table)@ == old(table)@.insert(request.filename@, flags)
            }
        }),
{
    proof {
        use_type_invariant(chunk);
    }
    let request = chunk.request();
    match table.record(request.filename.as_str(), request.chunk_id, request.total_chunks) {
        Ok(complete) => Ok(
            ChunkReceipt {
                complete,
                message: chunk_message(
                    request.chunk_id,
                    request.total_chunks,
                    request.filename.as_str(),
                ),
            },
        ),
        Err(e) => Err(e),
    }
}

} // verus!
