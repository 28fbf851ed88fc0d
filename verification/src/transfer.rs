//! Assembling a transfer and walking its sections in wire order.

use crate::error::WiiLoadFail;
use crate::header::lemma_encode_then_parse;
use crate::header::magic;
use crate::header::version;
use crate::header::NetworkPacketHeader;
use crate::header::HEADER_LEN;
use vstd::prelude::*;

verus! {

/// Largest number of argument bytes that the 16-bit length field can say.
pub const MAX_ARGS_LEN: usize = 0xFFFF;

/// Largest number of payload bytes that a 32-bit size field can say.
pub const MAX_BINARY_LEN: usize = 0xFFFF_FFFF;

/// The raw DEFLATE stream that the codec produces for `input` at `level`.
/// The codec is deterministic: its output depends on these two values alone.
pub uninterp spec fn deflated(input: Seq<u8>, level: u8) -> Seq<u8>;

/// Runs `miniz_oxide::deflate::compress_to_vec` on `input`. Nothing is
/// claimed about the output beyond its being the codec's answer for this
/// input and level; the codec accepts every level and treats those above 10
/// as 10.
#[verifier::external_body]
fn deflate(input: &[u8], level: u8) -> (out: Vec<u8>)
    ensures
        out@ == deflated(input@, level),
{
    miniz_oxide::deflate::compress_to_vec(input, level)
}

/// The bytes that stand for a piece of text on the wire: its UTF-8 encoding,
/// with no terminator.
pub open spec fn text_bytes(text: Seq<char>) -> Seq<u8> {
    vstd::utf8::encode_utf8(text)
}

/// The payload section as it is transmitted: the codec's output where a
/// compression level is chosen, the binary itself where none is.
pub open spec fn transmitted(binary: Seq<u8>, compression: Option<u8>) -> Seq<u8> {
    match compression {
        Some(level) => deflated(binary, level),
        None => binary,
    }
}

/// The payload section given the codec's output, if the codec ran: that
/// output, or else the binary itself.
pub open spec fn section_of(binary: Seq<u8>, squeezed: Option<Vec<u8>>) -> Seq<u8> {
    match squeezed {
        Some(v) => v@,
        None => binary,
    }
}

/// Why a transfer of these three byte strings cannot be framed, if it
/// cannot: the argument length is looked at first, then the two payload
/// sizes.
pub open spec fn rejection(arguments: Seq<u8>, binary: Seq<u8>, section: Seq<u8>) -> Option<
    WiiLoadFail,
> {
    if arguments.len() > MAX_ARGS_LEN {
        Some(WiiLoadFail::ArgsTooLong)
    } else if binary.len() > MAX_BINARY_LEN || section.len() > MAX_BINARY_LEN {
        Some(WiiLoadFail::BinaryTooLong)
    } else {
        None
    }
}

/// Narrows a count of argument bytes to the width of its header field.
pub fn args_len_field(len: usize) -> (field: Result<u16, WiiLoadFail>)
    ensures
        len <= MAX_ARGS_LEN ==> field == Ok::<u16, WiiLoadFail>(len as u16),
        len > MAX_ARGS_LEN ==> field == Err::<u16, WiiLoadFail>(WiiLoadFail::ArgsTooLong),
{
    if len > MAX_ARGS_LEN {
        Err(WiiLoadFail::ArgsTooLong)
    } else {
        Ok(len as u16)
    }
}

/// Narrows a count of payload bytes to the width of its header field.
pub fn binary_len_field(len: usize) -> (field: Result<u32, WiiLoadFail>)
    ensures
        len <= MAX_BINARY_LEN ==> field == Ok::<u32, WiiLoadFail>(len as u32),
        len > MAX_BINARY_LEN ==> field == Err::<u32, WiiLoadFail>(WiiLoadFail::BinaryTooLong),
{
    if len > MAX_BINARY_LEN {
        Err(WiiLoadFail::BinaryTooLong)
    } else {
        Ok(len as u32)
    }
}

/// The position of a sender within one transfer: the section that is to be
/// written next, or `Done` once all three are on the stream.
#[derive(Clone, Copy, Debug, PartialEq, Eq, Structural)]
pub enum Stage {
    Header,
    Payload,
    Arguments,
    Done,
}

impl Stage {
    /// The stage that follows a section written in full.
    pub open spec fn next(self) -> Stage {
        match self {
            Stage::Header => Stage::Payload,
            Stage::Payload => Stage::Arguments,
            Stage::Arguments => Stage::Done,
            Stage::Done => Stage::Done,
        }
    }

    /// Where the sender stands once the write of this stage's section has
    /// returned `outcome`.
    pub open spec fn after(self, outcome: Result<(), std::io::Error>) -> Result<
        Stage,
        WiiLoadFail,
    > {
        match outcome {
            Ok(_) => Ok(self.next()),
            Err(e) => Err(WiiLoadFail::NetError(e)),
        }
    }

    /// Decides what follows the write of this stage's section. A section
    /// written in full leads to the next one; a failed write ends the
    /// transfer at once with a connection error that carries the failure,
    /// and no later section is to be written.
    pub fn advance(self, outcome: Result<(), std::io::Error>) -> (step: Result<Stage, WiiLoadFail>)
        ensures
            step == self.after(outcome),
    {
        match outcome {
            Ok(_) => Ok(
                match self {
                    Stage::Header => Stage::Payload,
                    Stage::Payload => Stage::Arguments,
                    Stage::Arguments => Stage::Done,
                    Stage::Done => Stage::Done,
                },
            ),
            Err(e) => Err(WiiLoadFail::from(e)),
        }
    }
}

/// One transfer, ready to be written: the encoded header, the payload
/// section and the argument text.
#[derive(Debug)]
pub struct Transfer<'a> {
    fields: NetworkPacketHeader,
    header: [u8; 16],
    binary: &'a [u8],
    squeezed: Option<Vec<u8>>,
    arguments: String,
}

impl<'a> Transfer<'a> {
    /// The size fields announced in the header.
    pub closed spec fn fields(&self) -> NetworkPacketHeader {
        self.fields
    }

    /// The 16 header bytes.
    pub closed spec fn header(&self) -> Seq<u8> {
        self.header@
    }

    /// The binary as the caller gave it.
    pub closed spec fn binary(&self) -> Seq<u8> {
        self.binary@
    }

    /// The payload section as it goes onto the stream.
    pub closed spec fn payload(&self) -> Seq<u8> {
        match self.squeezed {
            Some(v) => v@,
            None => self.binary@,
        }
    }

    /// The argument bytes.
    pub closed spec fn arguments(&self) -> Seq<u8> {
        text_bytes(self.arguments@)
    }

    /// The header says exactly what follows it: it is the encoding of the
    /// size fields, and each field is the length of what it describes.
    pub open spec fn well_formed(&self) -> bool {
        &&& self.header() == self.fields().wire()
        &&& self.fields().args_len == self.arguments().len()
        &&& self.fields().buffer_size == self.payload().len()
        &&& self.fields().uncompressed_buffer_size == self.binary().len()
    }

    /// The bytes of the section written at `stage`; nothing at `Done`.
    pub open spec fn section_bytes(&self, stage: Stage) -> Option<Seq<u8>> {
        match stage {
            Stage::Header => Some(self.header()),
            Stage::Payload => Some(self.payload()),
            Stage::Arguments => Some(self.arguments()),
            Stage::Done => None,
        }
    }

    /// The bytes that are on the stream when the sender has reached `stage`
    /// with every earlier write done in full.
    pub open spec fn written(&self, stage: Stage) -> Seq<u8> {
        match stage {
            Stage::Header => Seq::empty(),
            Stage::Payload => self.header(),
            Stage::Arguments => self.header() + self.payload(),
            Stage::Done => self.header() + self.payload() + self.arguments(),
        }
    }

    /// The whole transfer as one byte string.
    pub open spec fn wire(&self) -> Seq<u8> {
        self.written(Stage::Done)
    }

    /// Frames a transfer from its parts: `squeezed` is the codec's output
    /// for `binary` where compression was chosen, and absent where the
    /// binary goes out as it is. Each length is narrowed to the width of its
    /// header field, and the transfer is refused where one does not fit.
    pub fn assemble(binary: &'a [u8], squeezed: Option<Vec<u8>>, arguments: String) -> (framed:
        Result<Transfer<'a>, WiiLoadFail>)
        ensures
            match framed {
                Ok(t) => {
                    &&& rejection(text_bytes(arguments@), binary@, section_of(binary@, squeezed))
                        is None
                    &&& t.well_formed()
                    &&& t.binary() == binary@
                    &&& t.payload() == section_of(binary@, squeezed)
                    &&& t.arguments() == text_bytes(arguments@)
                    &&& t.fields().args_len == text_bytes(arguments@).len()
                    &&& t.fields().buffer_size == section_of(binary@, squeezed).len()
                    &&& t.fields().uncompressed_buffer_size == binary@.len()
                    &&& t.header().subrange(0, 4) == magic()
                    &&& t.header().subrange(4, 6) == version()
                },
                Err(e) => rejection(text_bytes(arguments@), binary@, section_of(binary@, squeezed))
                    == Some(e),
            },
    {
        let args_len: u16 = match args_len_field(arguments.as_str().as_bytes().len()) {
            Ok(v) => v,
            Err(e) => {
                return Err(e);
            },
        };
        let uncompressed_buffer_size: u32 = match binary_len_field(binary.len()) {
            Ok(v) => v,
            Err(e) => {
                return Err(e);
            },
        };
        let section_len: usize = match &squeezed {
            Some(v) => v.len(),
            None => binary.len(),
        };
        let buffer_size: u32 = match binary_len_field(section_len) {
            Ok(v) => v,
            Err(e) => {
                return Err(e);
            },
        };
        let fields = NetworkPacketHeader { args_len, buffer_size, uncompressed_buffer_size };
        let header = fields.as_u8_buf();
        Ok(Transfer { fields, header, binary, squeezed, arguments })
    }

    /// The section to write at `stage`, or nothing once the transfer is
    /// complete.
    pub fn section(&self, stage: Stage) -> (bytes: Option<&[u8]>)
        ensures
            match bytes {
                Some(b) => self.section_bytes(stage) == Some(b@),
                None => stage == Stage::Done,
            },
    {
        match stage {
            Stage::Header => Some(self.header.as_slice()),
            Stage::Payload => match &self.squeezed {
                Some(v) => Some(v.as_slice()),
                None => Some(self.binary),
            },
            Stage::Arguments => Some(self.arguments.as_str().as_bytes()),
            Stage::Done => None,
        }
    }

    /// The size fields announced in the header.
    pub fn header_fields(&self) -> (fields: NetworkPacketHeader)
        ensures
            fields == self.fields(),
    {
        self.fields
    }
}

/// Prepares the transfer of `executable_binary` with `arguments`.
///
/// The argument length and the binary's length are looked at before any
/// other work, in that order. With a compression level the binary is then
/// run through the codec and the output takes its place as the payload
/// section; the level is not validated here but handed to the codec as it
/// is. No byte is written: the result holds the three sections, which the
/// caller writes onto the connection in the order that [`Transfer::section`]
/// and [`Stage::advance`] give, stopping at the first failed write.
pub fn net_send<'a>(
    executable_binary: &'a [u8],
    arguments: String,
    compression: Option<u8>,
) -> (prepared: Result<Transfer<'a>, WiiLoadFail>)
    ensures
        match prepared {
            Ok(t) => {
                &&& rejection(
                    text_bytes(arguments@),
                    executable_binary@,
                    transmitted(executable_binary@, compression),
                ) is None
                &&& t.well_formed()
                &&& t.binary() == executable_binary@
                &&& t.payload() == transmitted(executable_binary@, compression)
                &&& t.arguments() == text_bytes(arguments@)
                &&& t.fields().args_len == text_bytes(arguments@).len()
                &&& t.fields().buffer_size == transmitted(executable_binary@, compression).len()
                &&& t.fields().uncompressed_buffer_size == executable_binary@.len()
                &&& t.header().subrange(0, 4) == magic()
                &&& t.header().subrange(4, 6) == version()
            },
            Err(e) => rejection(
                text_bytes(arguments@),
                executable_binary@,
                transmitted(executable_binary@, compression),
            ) == Some(e),
        },
        (prepared matches Err(WiiLoadFail::ArgsTooLong)) <==> text_bytes(arguments@).len()
            > MAX_ARGS_LEN,
        compression is None ==> (prepared matches Ok(t) ==> t.fields().buffer_size
            == t.fields().uncompressed_buffer_size),
        compression is None && text_bytes(arguments@).len() <= MAX_ARGS_LEN
            && executable_binary@.len() <= MAX_BINARY_LEN ==> prepared is Ok,
{
    if arguments.as_str().as_bytes().len() > MAX_ARGS_LEN {
        return Err(WiiLoadFail::ArgsTooLong);
    }
    if executable_binary.len() > MAX_BINARY_LEN {
        return Err(WiiLoadFail::BinaryTooLong);
    }
    let squeezed: Option<Vec<u8>> = match compression {
        Some(level) => Some(deflate(executable_binary, level)),
        None => None,
    };
    Transfer::assemble(executable_binary, squeezed, arguments)
}

/// Each section written in full extends the stream by exactly that section,
/// so the sections reach the stream in the order header, payload, arguments
/// and with nothing between them.
pub proof fn lemma_sections_in_order(t: Transfer, stage: Stage)
    requires
        stage != Stage::Done,
    ensures
        t.section_bytes(stage) is Some,
        t.written(stage.next()) == t.written(stage) + t.section_bytes(stage).unwrap(),
        t.written(Stage::Header).len() == 0,
{
    assert(t.written(Stage::Payload) =~= t.written(Stage::Header) + t.header());
}

/// On the stream a well-formed transfer is the encoded header, then as many
/// payload bytes as the header's transmitted size says, then as many
/// argument bytes as its argument length says: 16 plus the two fields in
/// all. The header opens with the magic and the version.
pub proof fn lemma_wire_layout(t: Transfer)
    requires
        t.well_formed(),
    ensures
        t.wire().len() == HEADER_LEN + t.fields().buffer_size + t.fields().args_len,
        t.wire().subrange(0, 16) == t.fields().wire(),
        t.wire().subrange(0, 4) == magic(),
        t.wire().subrange(4, 6) == version(),
        NetworkPacketHeader::parse(t.wire().subrange(0, 16)) == Some(t.fields()),
        t.wire().subrange(16, 16 + t.fields().buffer_size) == t.payload(),
        t.wire().subrange(16 + t.fields().buffer_size, t.wire().len() as int) == t.arguments(),
{
    lemma_encode_then_parse(t.fields());
    let w = t.wire();
    let h = t.fields().wire();
    assert(w.subrange(0, 16) =~= h);
    assert(w.subrange(0, 4) =~= h.subrange(0, 4));
    assert(w.subrange(4, 6) =~= h.subrange(4, 6));
    assert(w.subrange(16, 16 + t.fields().buffer_size) =~= t.payload());
    assert(w.subrange(16 + t.fields().buffer_size, w.len() as int) =~= t.arguments());
}

} // verus!
