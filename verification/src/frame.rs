//! How frames look on the wire. This module does not generate frames —
//! generation is done in the session module.

use bytes::{Bytes, BytesMut};
use vstd::prelude::*;
use vstd::slice::slice_to_vec;

use crate::crypto::{Nonce, PublicKey};
use crate::errors::{WhisperError, WhisperResult};

verus! {

/// How many bytes of overhead each frame has. The header consists of:
/// - Session identificator. 32 bytes.
/// - Nonce used to encrypt payload. 24 bytes.
/// - Message kind. 1 byte.
pub const HEADER_SIZE: usize = 57;

/// Frame type. Frame kind takes 1 byte.
#[derive(Debug, Clone, PartialEq, Copy, Eq, Hash, Structural)]
pub enum FrameKind {
    /// Initial frame. Sent from client.
    Hello,
    /// Reply to initial frame. Sent from server.
    Welcome,
    /// Authentication frame. Sent from client.
    Initiate,
    /// After successful handshake this frame is sent from server.
    Ready,
    /// A message that requires the remote side to reply. Can be sent from
    /// either side.
    Request,
    /// A message that is a reply to the corresponding Request. Can be sent
    /// from either side.
    Response,
    /// A message that doesn't require a response. Can be sent from either
    /// side.
    Notification,
    /// Termination frame. Usually used to indicate handshake error or
    /// session termination. Can be sent from either side.
    Termination,
}

/// The byte that stands for a frame kind on the wire.
pub open spec fn kind_to_byte(k: FrameKind) -> u8 {
    match k {
        FrameKind::Hello => 1,
        FrameKind::Welcome => 2,
        FrameKind::Initiate => 3,
        FrameKind::Ready => 4,
        FrameKind::Request => 5,
        FrameKind::Response => 6,
        FrameKind::Notification => 7,
        FrameKind::Termination => 255,
    }
}

/// The frame kind a byte stands for, if any.
pub open spec fn byte_to_kind(b: u8) -> Option<FrameKind> {
    if b == 1 {
        Some(FrameKind::Hello)
    } else if b == 2 {
        Some(FrameKind::Welcome)
    } else if b == 3 {
        Some(FrameKind::Initiate)
    } else if b == 4 {
        Some(FrameKind::Ready)
    } else if b == 5 {
        Some(FrameKind::Request)
    } else if b == 6 {
        Some(FrameKind::Response)
    } else if b == 7 {
        Some(FrameKind::Notification)
    } else if b == 255 {
        Some(FrameKind::Termination)
    } else {
        None
    }
}

/// The two byte maps invert each other.
pub proof fn lemma_kind_byte_round_trip(k: FrameKind)
    ensures
        byte_to_kind(kind_to_byte(k)) == Some(k),
{
}

impl FrameKind {
    /// The kind a byte stands for, if it is one of the recognized tags.
    pub fn from(kind: u8) -> (r: Option<FrameKind>)
        ensures
            r == byte_to_kind(kind),
    {
        match kind {
            1 => Some(FrameKind::Hello),
            2 => Some(FrameKind::Welcome),
            3 => Some(FrameKind::Initiate),
            4 => Some(FrameKind::Ready),
            5 => Some(FrameKind::Request),
            6 => Some(FrameKind::Response),
            7 => Some(FrameKind::Notification),
            255 => Some(FrameKind::Termination),
            _ => None,
        }
    }

    /// Alias to the method above, but fails if there is more than one byte.
    pub fn from_slice(kind: &[u8]) -> (r: Option<FrameKind>)
        ensures
            r == if kind@.len() == 1 {
                byte_to_kind(kind@[0])
            } else {
                None::<FrameKind>
            },
    {
        if kind.len() != 1 {
            return None;
        }
        FrameKind::from(kind[0])
    }

    /// The byte this kind is written as on the wire.
    pub fn byte(&self) -> (r: u8)
        ensures
            r == kind_to_byte(*self),
    {
        match self {
            FrameKind::Hello => 1,
            FrameKind::Welcome => 2,
            FrameKind::Initiate => 3,
            FrameKind::Ready => 4,
            FrameKind::Request => 5,
            FrameKind::Response => 6,
            FrameKind::Notification => 7,
            FrameKind::Termination => 255,
        }
    }
}

/// The main unit of information passed from client to server and vice
/// versa. This thing doesn't care what payload it has as long as the frame
/// has a correct header. This way you can use whatever you want as your
/// internal message format.
#[derive(Debug, Clone, PartialEq, Eq, Hash)]
pub struct Frame {
    /// Session identificator. 32 bytes.
    pub id: PublicKey,
    /// Nonce used to encrypt payload. Nonce is also used as Request ID in
    /// multiplexing. 24 bytes.
    pub nonce: Nonce,
    /// Message kind. 1 byte on the wire.
    pub kind: FrameKind,
    /// Payload (that may or may not be encrypted).
    pub payload: Vec<u8>,
}

/// The exact bytes a frame is written as: id, nonce, kind byte, payload.
pub open spec fn frame_bytes(f: Frame) -> Seq<u8> {
    f.id@ + f.nonce@ + seq![kind_to_byte(f.kind)] + f.payload@
}

/// Whether a byte string decodes as a frame: a full header whose kind byte
/// is a recognized tag.
pub open spec fn decode_accepts(b: Seq<u8>) -> bool {
    b.len() >= HEADER_SIZE && byte_to_kind(b[56]) is Some
}

impl Frame {
    /// A frame whose id and nonce have their full wire lengths.
    pub open spec fn wf(&self) -> bool {
        self.id.wf() && self.nonce.wf()
    }

    /// Calculates length of a frame.
    pub fn length(&self) -> (r: usize)
        requires
            self.payload@.len() + HEADER_SIZE <= usize::MAX,
        ensures
            r == HEADER_SIZE + self.payload@.len(),
    {
        HEADER_SIZE + self.payload.len()
    }

    /// The frame packed into a byte vector, header then payload.
    fn encode(&self) -> (r: Vec<u8>)
        requires
            self.wf(),
            self.payload@.len() + HEADER_SIZE <= usize::MAX,
        ensures
            r@ == frame_bytes(*self),
    {
        let mut out: Vec<u8> = Vec::new();
        out.extend_from_slice(self.id.as_slice());
        proof {
            assert(out@ =~= self.id@);
        }
        out.extend_from_slice(self.nonce.as_slice());
        proof {
            assert(out@ =~= self.id@ + self.nonce@);
        }
        out.push(self.kind.byte());
        out.extend_from_slice(self.payload.as_slice());
        proof {
            assert(out@ =~= frame_bytes(*self));
        }
        out
    }

    /// Parse a packed frame back out of a byte slice.
    ///
    /// Fails with `IncompleteFrame` when fewer than 57 bytes are available,
    /// and with `BadFrame` when the kind byte is not a recognized tag; the
    /// bytes after the header become the payload.
    pub fn from_slice(i: &[u8]) -> (r: WhisperResult<Frame>)
        ensures
            i@.len() < HEADER_SIZE ==> r == Err::<Frame, WhisperError>(
                WhisperError::IncompleteFrame,
            ),
            i@.len() >= HEADER_SIZE && byte_to_kind(i@[56]) is None ==> r == Err::<
                Frame,
                WhisperError,
            >(WhisperError::BadFrame),
            decode_accepts(i@) ==> (r matches Ok(f) && f.wf() && f.id@ == i@.subrange(0, 32)
                && f.nonce@ == i@.subrange(32, 56) && Some(f.kind) == byte_to_kind(i@[56])
                && f.payload@ == i@.subrange(57, i@.len() as int)),
    {
        if i.len() < HEADER_SIZE {
            return Err(WhisperError::IncompleteFrame);
        }
        let kind = match FrameKind::from(i[56]) {
            Some(k) => k,
            None => {
                return Err(WhisperError::BadFrame);
            },
        };
        let id = PublicKey::from_slice(&i[0..32]).unwrap();
        let nonce = Nonce::from_slice(&i[32..56]).unwrap();
        let payload = slice_to_vec(&i[57..i.len()]);
        Ok(Frame { id, nonce, kind, payload })
    }
}

/// Round-trip law: the bytes of a well-formed frame decode, their length is
/// the header plus the payload, and each decoded field equals the field it
/// was packed from.
pub proof fn lemma_frame_round_trip(f: Frame)
    requires
        f.wf(),
    ensures
        frame_bytes(f).len() == HEADER_SIZE + f.payload@.len(),
        decode_accepts(frame_bytes(f)),
        frame_bytes(f).subrange(0, 32) == f.id@,
        frame_bytes(f).subrange(32, 56) == f.nonce@,
        byte_to_kind(frame_bytes(f)[56]) == Some(f.kind),
        frame_bytes(f).subrange(57, frame_bytes(f).len() as int) == f.payload@,
{
    let b = frame_bytes(f);
    assert(b[56] == kind_to_byte(f.kind));
    lemma_kind_byte_round_trip(f.kind);
    assert(b.subrange(0, 32) =~= f.id@);
    assert(b.subrange(32, 56) =~= f.nonce@);
    assert(b.subrange(57, b.len() as int) =~= f.payload@);
}


#[verifier::external_type_specification]
#[verifier::external_body]
pub struct ExBytes(Bytes);

#[verifier::external_type_specification]
#[verifier::external_body]
pub struct ExBytesMut(BytesMut);

/// The bytes a `Bytes` value holds.
pub uninterp spec fn bytes_view(b: Bytes) -> Seq<u8>;

/// The bytes a `BytesMut` buffer holds.
pub uninterp spec fn bytes_mut_view(b: BytesMut) -> Seq<u8>;

/// Relies on `Bytes::from(Vec<u8>)`: the vector's bytes are taken over
/// unchanged.
#[verifier::external_body]
fn vec_into_bytes(v: Vec<u8>) -> (r: Bytes)
    ensures
        bytes_view(r) == v@,
{
    Bytes::from(v)
}

/// Relies on `BytesMut::extend_from_slice`: the slice is appended to the
/// buffer.
#[verifier::external_body]
fn bytes_mut_extend(buf: &mut BytesMut, data: &[u8])
    ensures
        bytes_mut_view(*final(buf)) == bytes_mut_view(*old(buf)) + data@,
{
    buf.extend_from_slice(data);
}

impl Frame {
    /// Writes the packed frame to the supplied buffer. This doesn't include
    /// a length prefix.
    pub fn pack_to_buf(&self, buf: &mut BytesMut)
        requires
            self.wf(),
            self.payload@.len() + HEADER_SIZE <= usize::MAX,
        ensures
            bytes_mut_view(*final(buf)) == bytes_mut_view(*old(buf)) + frame_bytes(*self),
    {
        let encoded = self.encode();
        bytes_mut_extend(buf, encoded.as_slice());
    }

    /// Pack frame header and payload into one contiguous byte string.
    pub fn pack(&self) -> (r: Bytes)
        requires
            self.wf(),
            self.payload@.len() + HEADER_SIZE <= usize::MAX,
        ensures
            bytes_view(r) == frame_bytes(*self),
            bytes_view(r).len() == HEADER_SIZE + self.payload@.len(),
    {
        vec_into_bytes(self.encode())
    }
}

} // verus!
