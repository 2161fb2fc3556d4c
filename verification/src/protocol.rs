//! Wire-level types shared by daemon and client, and the length-prefixed
//! framing of messages on the socket.

use vstd::prelude::*;

verus! {

/// Current protocol version. Bumped when the wire format changes in a
/// breaking way; the client checks it on connect.
pub const PROTOCOL_VERSION: u32 = 1;

/// Detailed playback status, reflecting the player's actual state.
#[derive(Debug, Clone, Copy, PartialEq, Eq, Structural)]
pub enum PlaybackStatus {
    /// Nothing loaded, or explicitly stopped.
    Idle,
    /// Load sent; the player is buffering or connecting.
    Connecting,
    /// Audio is flowing.
    Playing,
    /// Explicitly paused.
    Paused,
    /// Failed to play (timeout or player error).
    Error,
}

impl Default for PlaybackStatus {
    fn default() -> (r: Self)
        ensures
            r == PlaybackStatus::Idle,
    {
        PlaybackStatus::Idle
    }
}

/// Health of the player process as observed by the daemon.
///
/// Transitions:
///   Absent -> Starting -> Running -> Dead -> Restarting -> Starting ...
///   Running -> Degraded(reason) -> Running | Dead
#[derive(Debug, Clone)]
pub enum MpvHealth {
    /// The process does not exist yet (before first use).
    Absent,
    /// The process is spawning; its socket is not yet available.
    Starting,
    /// Socket connected, IPC responding normally.
    Running,
    /// Connected but IPC is slow or returning errors.
    Degraded(String),
    /// The process exited or its socket closed.
    Dead,
    /// Restarting after death.
    Restarting,
}

impl Default for MpvHealth {
    fn default() -> (r: Self)
        ensures
            r is Absent,
    {
        MpvHealth::Absent
    }
}

/// Badge text for a health state (at most five characters); none when the
/// state needs no badge.
pub open spec fn badge_spec(h: MpvHealth) -> Option<Seq<char>> {
    match h {
        MpvHealth::Absent => None,
        MpvHealth::Starting => Some("INIT"@),
        MpvHealth::Running => None,
        MpvHealth::Degraded(_) => Some("DEGD"@),
        MpvHealth::Dead => Some("DEAD"@),
        MpvHealth::Restarting => Some("REST"@),
    }
}

/// A state the user should notice: degraded, dead or restarting.
pub open spec fn unhealthy_spec(h: MpvHealth) -> bool {
    h is Degraded || h is Dead || h is Restarting
}

impl MpvHealth {
    /// Short label for badges / status bar.
    pub fn badge_label(&self) -> (r: Option<&str>)
        ensures
            match r {
                Some(s) => badge_spec(*self) == Some(s@),
                None => badge_spec(*self) is None,
            },
    {
        match self {
            MpvHealth::Absent => None,
            MpvHealth::Starting => Some("INIT"),
            MpvHealth::Running => None,
            MpvHealth::Degraded(_) => Some("DEGD"),
            MpvHealth::Dead => Some("DEAD"),
            MpvHealth::Restarting => Some("REST"),
        }
    }

    /// True when the player is in an error or non-running state that users
    /// should notice.
    pub fn is_unhealthy(&self) -> (r: bool)
        ensures
            r == unhealthy_spec(*self),
    {
        match self {
            MpvHealth::Degraded(_) | MpvHealth::Dead | MpvHealth::Restarting => true,
            _ => false,
        }
    }
}

/// A radio station.
#[derive(Debug, Clone)]
pub struct Station {
    pub name: String,
    pub url: String,
    /// Short description / blurb.
    pub description: String,
    /// Parent network or brand (e.g. "NTS", "SomaFM", "BBC").
    pub network: String,
    /// Searchable tags (genre, style, language, etc.).
    pub tags: Vec<String>,
    /// City the station broadcasts from.
    pub city: String,
    /// Country the station broadcasts from.
    pub country: String,
}

impl Station {
    /// A station with a name and URL and every other field empty.
    pub fn named(name: String, url: String) -> (r: Station)
        ensures
            r.name@ == name@,
            r.url@ == url@,
            r.description@.len() == 0,
            r.network@.len() == 0,
            r.tags@.len() == 0,
            r.city@.len() == 0,
            r.country@.len() == 0,
    {
        Station {
            name,
            url,
            description: String::new(),
            network: String::new(),
            tags: Vec::new(),
            city: String::new(),
            country: String::new(),
        }
    }
}

impl Default for Station {
    fn default() -> (r: Self)
        ensures
            r.name@.len() == 0,
            r.url@.len() == 0,
            r.description@.len() == 0,
            r.network@.len() == 0,
            r.tags@.len() == 0,
            r.city@.len() == 0,
            r.country@.len() == 0,
    {
        Station::named(String::new(), String::new())
    }
}

// ── framing ─────────────────────────────────────────────────────────────────
/// Big-endian bytes of a 32-bit length.
pub open spec fn be_bytes(n: u32) -> Seq<u8> {
    seq![
        (n / 0x100_0000) as u8,
        ((n / 0x1_0000) % 0x100) as u8,
        ((n / 0x100) % 0x100) as u8,
        (n % 0x100) as u8,
    ]
}

/// The 32-bit big-endian number held by four bytes.
pub open spec fn be_value(b0: u8, b1: u8, b2: u8, b3: u8) -> nat {
    (b0 as nat) * 0x100_0000 + (b1 as nat) * 0x1_0000 + (b2 as nat) * 0x100 + (b3 as nat)
}

/// A frame: the payload's length (as a `u32`, so modulo 2^32) in four
/// big-endian bytes, then the payload.
pub open spec fn frame(payload: Seq<u8>) -> Seq<u8> {
    be_bytes(payload.len() as u32) + payload
}

/// Why a buffer does not (yet) hold a whole frame.
#[derive(Debug, Clone, Copy, PartialEq, Eq, Structural)]
pub enum FrameError {
    /// Fewer than four bytes: the length header is incomplete.
    ShortHeader,
    /// The header announces more bytes than the buffer holds.
    ShortMessage,
}

/// The outcome of reading one frame from the front of `data`: its payload
/// and the number of bytes it took.
pub open spec fn unframe(data: Seq<u8>) -> Result<(Seq<u8>, nat), FrameError> {
    if data.len() < 4 {
        Err(FrameError::ShortHeader)
    } else {
        let len = be_value(data[0], data[1], data[2], data[3]);
        if data.len() < 4 + len {
            Err(FrameError::ShortMessage)
        } else {
            Ok((data.subrange(4, 4 + len as int), (4 + len) as nat))
        }
    }
}

/// Frames a serialized message for the socket.
pub fn encode_frame(payload: &[u8]) -> (r: Vec<u8>)
    ensures
        r@ == frame(payload@),
{
    let len = payload.len() as u32;
    let mut out: Vec<u8> = Vec::new();
    out.push((len / 0x100_0000) as u8);
    out.push(((len / 0x1_0000) % 0x100) as u8);
    out.push(((len / 0x100) % 0x100) as u8);
    out.push((len % 0x100) as u8);
    let n = payload.len();
    let mut i: usize = 0;
    while i < n
        invariant
            n == payload@.len(),
            0 <= i <= n,
            out@ == be_bytes(len) + payload@.take(i as int),
        decreases n - i,
    {
        out.push(payload[i]);
        proof {
            assert(payload@.take(i + 1) == payload@.take(i as int).push(payload@[i as int]));
        }
        i += 1;
    }
    proof {
        assert(payload@.take(n as int) == payload@);
        assert(payload@.len() as u32 == len);
    }
    out
}

/// Reads one frame from the front of `data`: the payload and the number of
/// bytes the frame took.
pub fn decode_frame(data: &[u8]) -> (r: Result<(Vec<u8>, usize), FrameError>)
    ensures
        match r {
            Ok((p, used)) => unframe(data@) == Ok::<(Seq<u8>, nat), FrameError>((p@, used as nat)),
            Err(e) => unframe(data@) == Err::<(Seq<u8>, nat), FrameError>(e),
        },
{
    let n = data.len();
    if n < 4 {
        return Err(FrameError::ShortHeader);
    }
    let len: u64 = (data[0] as u64) * 0x100_0000 + (data[1] as u64) * 0x1_0000 + (data[2] as u64)
        * 0x100 + (data[3] as u64);
    if (n as u64) < 4 + len {
        return Err(FrameError::ShortMessage);
    }
    let end = (4 + len) as usize;
    let mut out: Vec<u8> = Vec::new();
    let mut i: usize = 4;
    while i < end
        invariant
            n == data@.len(),
            4 <= i <= end <= n,
            out@ == data@.subrange(4, i as int),
        decreases end - i,
    {
        out.push(data[i]);
        proof {
            assert(data@.subrange(4, i + 1) == data@.subrange(4, i as int).push(data@[i as int]));
        }
        i += 1;
    }
    Ok((out, end))
}

proof fn lemma_be_roundtrip(n: u32)
    ensures
        be_value(be_bytes(n)[0], be_bytes(n)[1], be_bytes(n)[2], be_bytes(n)[3]) == n as nat,
{
    let b = be_bytes(n);
    assert(b[0] as nat == n as nat / 0x100_0000);
    assert(b[1] as nat == (n as nat / 0x1_0000) % 0x100);
    assert(b[2] as nat == (n as nat / 0x100) % 0x100);
    assert(b[3] as nat == n as nat % 0x100);
    let x = n as nat;
    assert((x / 0x100_0000) * 0x100_0000 + ((x / 0x1_0000) % 0x100) * 0x1_0000 + ((x / 0x100)
        % 0x100) * 0x100 + x % 0x100 == x) by (nonlinear_arith)
        requires
            x < 0x1_0000_0000,
    ;
}

/// Law: reading the front of a buffer that starts with a frame gives back the
/// framed payload and the frame's length, whatever follows it.
pub proof fn law_frame_roundtrip(payload: Seq<u8>, rest: Seq<u8>)
    requires
        payload.len() <= u32::MAX,
    ensures
        unframe(frame(payload) + rest) == Ok::<(Seq<u8>, nat), FrameError>((payload, (payload.len() + 4) as nat)),
{
    let n = payload.len() as u32;
    lemma_be_roundtrip(n);
    let d = frame(payload) + rest;
    assert(d[0] == be_bytes(n)[0]);
    assert(d[1] == be_bytes(n)[1]);
    assert(d[2] == be_bytes(n)[2]);
    assert(d[3] == be_bytes(n)[3]);
    assert(d.subrange(4, 4 + payload.len() as int) =~= payload);
}

} // verus!
