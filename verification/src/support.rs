//! Small shared pieces of the hosting layer's vocabulary: audio format
//! detection by file suffix, a generic size pair, and scroll directions for
//! background layers.

use vstd::prelude::*;
use vstd::string::StringSliceAdditionalSpecFns;

verus! {

/// Which way a scrolling background layer moves.
#[derive(Clone, Copy, Debug)]
pub enum ScrollDir {
    Up,
    Right,
    Down,
    Left,
}

/// A width/height pair.
#[derive(Clone, Copy, Debug)]
pub struct Size<T: Default> {
    pub width: T,
    pub height: T,
}

impl<T: Default> Size<T> {
    pub fn new(width: T, height: T) -> (r: Size<T>)
        ensures
            r.width == width,
            r.height == height,
    {
        Size { width, height }
    }
}

/// An audio container format, judged by file-name suffix.
#[derive(Clone, Copy, Debug, PartialEq, Eq, Structural)]
pub enum AudioType {
    WAV,
    MP3,
    OGG,
    FLAC,
    Other,
}

/// ASCII lower-casing of one byte: letters `A` to `Z` move to `a` to `z`,
/// every other byte stays.
pub open spec fn spec_lower_byte(b: u8) -> u8 {
    if 65 <= b <= 90 {
        (b + 32) as u8
    } else {
        b
    }
}

/// ASCII lower-casing of a byte string.
pub open spec fn spec_lower_bytes(s: Seq<u8>) -> Seq<u8> {
    s.map_values(|b: u8| spec_lower_byte(b))
}

/// Whether `s` ends with `suffix`.
pub open spec fn spec_ends_with(s: Seq<u8>, suffix: Seq<u8>) -> bool {
    s.len() >= suffix.len() && s.subrange(s.len() - suffix.len(), s.len() as int) == suffix
}

/// The audio format a path name announces: the first of the suffixes `wav`,
/// `mp3`, `ogg`, `flac` that the ASCII-lowercased path ends with.
pub open spec fn spec_audio_type(path_bytes: Seq<u8>) -> AudioType {
    let lower = spec_lower_bytes(path_bytes);
    if spec_ends_with(lower, seq![119u8, 97u8, 118u8]) {
        AudioType::WAV
    } else if spec_ends_with(lower, seq![109u8, 112u8, 51u8]) {
        AudioType::MP3
    } else if spec_ends_with(lower, seq![111u8, 103u8, 103u8]) {
        AudioType::OGG
    } else if spec_ends_with(lower, seq![102u8, 108u8, 97u8, 99u8]) {
        AudioType::FLAC
    } else {
        AudioType::Other
    }
}

/// ASCII-lowercase a byte string.
fn lower_ascii_bytes(bytes: &[u8]) -> (r: Vec<u8>)
    ensures
        r@ == spec_lower_bytes(bytes@),
{
    let bytes_num = bytes.len();
    let mut out: Vec<u8> = Vec::new();
    let mut i: usize = 0;
    while i < bytes_num
        invariant
            i <= bytes_num,
            bytes_num == bytes@.len(),
            out@.len() == i,
            forall|j: int| 0 <= j < i ==> out@[j] == spec_lower_byte(bytes@[j]),
        decreases bytes_num - i,
    {
        let b = bytes[i];
        let lowered: u8 = if b >= 65 && b <= 90 {
            b + 32
        } else {
            b
        };
        out.push(lowered);
        i += 1;
    }
    proof {
        assert(out@ =~= spec_lower_bytes(bytes@));
    }
    out
}

/// Whether the byte string ends with the three given bytes.
fn tail_matches3(v: &Vec<u8>, a: u8, b: u8, c: u8) -> (r: bool)
    ensures
        r == spec_ends_with(v@, seq![a, b, c]),
{
    let n = v.len();
    if n >= 3 {
        let hit = v[n - 3] == a && v[n - 2] == b && v[n - 1] == c;
        proof {
            if hit {
                assert(v@.subrange(n as int - 3, n as int) =~= seq![a, b, c]);
            } else {
                assert(v@.subrange(n as int - 3, n as int)[0] == v@[n as int - 3]);
                assert(v@.subrange(n as int - 3, n as int)[1] == v@[n as int - 2]);
                assert(v@.subrange(n as int - 3, n as int)[2] == v@[n as int - 1]);
            }
        }
        hit
    } else {
        false
    }
}

/// Whether the byte string ends with the four given bytes.
fn tail_matches4(v: &Vec<u8>, a: u8, b: u8, c: u8, d: u8) -> (r: bool)
    ensures
        r == spec_ends_with(v@, seq![a, b, c, d]),
{
    let n = v.len();
    if n >= 4 {
        let hit = v[n - 4] == a && v[n - 3] == b && v[n - 2] == c && v[n - 1] == d;
        proof {
            if hit {
                assert(v@.subrange(n as int - 4, n as int) =~= seq![a, b, c, d]);
            } else {
                assert(v@.subrange(n as int - 4, n as int)[0] == v@[n as int - 4]);
                assert(v@.subrange(n as int - 4, n as int)[1] == v@[n as int - 3]);
                assert(v@.subrange(n as int - 4, n as int)[2] == v@[n as int - 2]);
                assert(v@.subrange(n as int - 4, n as int)[3] == v@[n as int - 1]);
            }
        }
        hit
    } else {
        false
    }
}

impl AudioType {
    /// Judge a path's audio format by its suffix, case-insensitively.
    pub fn test(path: &str) -> (r: AudioType)
        ensures
            r == spec_audio_type(path.spec_bytes()),
    {
        let bytes = path.as_bytes();
        let lowered = lower_ascii_bytes(bytes);
        if tail_matches3(&lowered, 119, 97, 118) {
            AudioType::WAV
        } else if tail_matches3(&lowered, 109, 112, 51) {
            AudioType::MP3
        } else if tail_matches3(&lowered, 111, 103, 103) {
            AudioType::OGG
        } else if tail_matches4(&lowered, 102, 108, 97, 99) {
            AudioType::FLAC
        } else {
            AudioType::Other
        }
    }
}

} // verus!
