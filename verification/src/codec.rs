//! Wire codec for the two message types exchanged between peers.
//!
//! Each message is carried as the entire payload of one datagram: a one-byte
//! tag that distinguishes the message kind (and, for commands, the variant),
//! followed by the snapshot's six numeric fields in big-endian order where
//! present. Encoding is total and deterministic; decoding accepts exactly the
//! byte sequences that encoding produces and rejects everything else.

use vstd::prelude::*;

verus! {

/// Error returned when a byte sequence does not match any known encoding.
#[derive(Clone, Copy, Debug, PartialEq, Eq, Structural)]
pub enum CodecError {
    MalformedMessage,
}

/// A discrete user intent produced once per input poll on the input peer.
#[derive(Clone, Copy, Debug, PartialEq, Eq, Structural)]
pub enum UserCommand {
    Up,
    Down,
    Idle,
}

/// The authoritative peer's full simulation state at one instant.
///
/// The four position fields carry the raw bit patterns of the presentation
/// layer's binary32 values, so the codec round-trips them exactly, with no
/// lossy re-quantization anywhere in the core. The two scores are plain
/// integers.
#[derive(Clone, Copy, Debug, PartialEq, Eq, Structural)]
pub struct GameData {
    pub pos_player1: u32,
    pub pos_player2: u32,
    pub pos_ball_x: u32,
    pub pos_ball_y: u32,
    pub score_player_1: u32,
    pub score_player_2: u32,
}

pub const TAG_UP: u8 = 1;
pub const TAG_DOWN: u8 = 2;
pub const TAG_IDLE: u8 = 3;
pub const TAG_SNAPSHOT: u8 = 4;

/// Encoded length of a command: the tag byte alone.
pub const COMMAND_LEN: usize = 1;
/// Encoded length of a snapshot: the tag byte plus six big-endian words.
pub const SNAPSHOT_LEN: usize = 25;

pub open spec fn spec_encode_command(c: UserCommand) -> Seq<u8> {
    match c {
        UserCommand::Up => seq![TAG_UP],
        UserCommand::Down => seq![TAG_DOWN],
        UserCommand::Idle => seq![TAG_IDLE],
    }
}

pub open spec fn spec_decode_command(bytes: Seq<u8>) -> Option<UserCommand> {
    if bytes.len() == COMMAND_LEN {
        if bytes[0] == TAG_UP {
            Option::Some(UserCommand::Up)
        } else if bytes[0] == TAG_DOWN {
            Option::Some(UserCommand::Down)
        } else if bytes[0] == TAG_IDLE {
            Option::Some(UserCommand::Idle)
        } else {
            Option::None
        }
    } else {
        Option::None
    }
}

impl UserCommand {
    /// Total, deterministic encoding: one tag byte per variant.
    pub fn encode(&self) -> (r: Vec<u8>)
        ensures
            r@ == spec_encode_command(*self),
    {
        let mut v: Vec<u8> = Vec::new();
        match self {
            UserCommand::Up => v.push(TAG_UP),
            UserCommand::Down => v.push(TAG_DOWN),
            UserCommand::Idle => v.push(TAG_IDLE),
        }
        proof {
            assert(v@ =~= spec_encode_command(*self));
        }
        v
    }

    /// Accepts exactly the encodings of the three variants; every other byte
    /// sequence is rejected as malformed.
    pub fn decode(bytes: &[u8]) -> (r: Result<UserCommand, CodecError>)
        ensures
            (match spec_decode_command(bytes@) {
                Option::Some(c) => r == Ok::<UserCommand, CodecError>(c),
                Option::None => r == Err::<UserCommand, CodecError>(CodecError::MalformedMessage),
            }),
    {
        if bytes.len() == COMMAND_LEN {
            let b = bytes[0];
            if b == TAG_UP {
                Ok(UserCommand::Up)
            } else if b == TAG_DOWN {
                Ok(UserCommand::Down)
            } else if b == TAG_IDLE {
                Ok(UserCommand::Idle)
            } else {
                Err(CodecError::MalformedMessage)
            }
        } else {
            Err(CodecError::MalformedMessage)
        }
    }
}

/// The four bytes of `x` in big-endian order.
pub open spec fn spec_be_bytes(x: u32) -> Seq<u8> {
    seq![
        ((x >> 24) & 0xFF) as u8,
        ((x >> 16) & 0xFF) as u8,
        ((x >> 8) & 0xFF) as u8,
        (x & 0xFF) as u8,
    ]
}

/// The word whose big-endian bytes are `b0 b1 b2 b3`.
pub open spec fn spec_u32_from_be(b0: u8, b1: u8, b2: u8, b3: u8) -> u32 {
    ((b0 as u32) << 24) | ((b1 as u32) << 16) | ((b2 as u32) << 8) | (b3 as u32)
}

/// Law: reassembling a word from its big-endian bytes yields the word back.
pub proof fn lemma_be_word_round_trip(x: u32)
    ensures
        spec_u32_from_be(
            spec_be_bytes(x)[0],
            spec_be_bytes(x)[1],
            spec_be_bytes(x)[2],
            spec_be_bytes(x)[3],
        ) == x,
{
    assert((((((x >> 24) & 0xFF) as u8) as u32) << 24) | (((((x >> 16) & 0xFF) as u8) as u32)
        << 16) | (((((x >> 8) & 0xFF) as u8) as u32) << 8) | (((x & 0xFF) as u8) as u32) == x)
        by (bit_vector);
}

/// Law: taking apart a word assembled from four bytes yields those bytes back.
pub proof fn lemma_be_bytes_round_trip(b0: u8, b1: u8, b2: u8, b3: u8)
    ensures
        spec_be_bytes(spec_u32_from_be(b0, b1, b2, b3)) == seq![b0, b1, b2, b3],
{
    assert(((((((b0 as u32) << 24) | ((b1 as u32) << 16) | ((b2 as u32) << 8) | (b3 as u32)) >> 24)
        & 0xFF) as u8) == b0) by (bit_vector);
    assert(((((((b0 as u32) << 24) | ((b1 as u32) << 16) | ((b2 as u32) << 8) | (b3 as u32)) >> 16)
        & 0xFF) as u8) == b1) by (bit_vector);
    assert(((((((b0 as u32) << 24) | ((b1 as u32) << 16) | ((b2 as u32) << 8) | (b3 as u32)) >> 8)
        & 0xFF) as u8) == b2) by (bit_vector);
    assert((((((b0 as u32) << 24) | ((b1 as u32) << 16) | ((b2 as u32) << 8) | (b3 as u32)) & 0xFF)
        as u8) == b3) by (bit_vector);
    assert(spec_be_bytes(spec_u32_from_be(b0, b1, b2, b3)) =~= seq![b0, b1, b2, b3]);
}

/// Appends the big-endian bytes of `x`.
fn push_u32_be(v: &mut Vec<u8>, x: u32)
    ensures
        final(v)@ == old(v)@ + spec_be_bytes(x),
{
    v.push(((x >> 24) & 0xFF) as u8);
    v.push(((x >> 16) & 0xFF) as u8);
    v.push(((x >> 8) & 0xFF) as u8);
    v.push((x & 0xFF) as u8);
    proof {
        assert(v@ =~= old(v)@ + spec_be_bytes(x));
    }
}

/// Reads the big-endian word at offset `i`.
fn read_u32_be(bytes: &[u8], i: usize) -> (r: u32)
    requires
        i + 4 <= bytes@.len(),
    ensures
        r == spec_u32_from_be(bytes@[i as int], bytes@[i + 1], bytes@[i + 2], bytes@[i + 3]),
{
    let b0 = bytes[i];
    let b1 = bytes[i + 1];
    let b2 = bytes[i + 2];
    let b3 = bytes[i + 3];
    ((b0 as u32) << 24) | ((b1 as u32) << 16) | ((b2 as u32) << 8) | (b3 as u32)
}

pub open spec fn spec_encode_game_data(g: GameData) -> Seq<u8> {
    seq![TAG_SNAPSHOT] + spec_be_bytes(g.pos_player1) + spec_be_bytes(g.pos_player2)
        + spec_be_bytes(g.pos_ball_x) + spec_be_bytes(g.pos_ball_y) + spec_be_bytes(
        g.score_player_1,
    ) + spec_be_bytes(g.score_player_2)
}

pub open spec fn spec_decode_game_data(bytes: Seq<u8>) -> Option<GameData> {
    if bytes.len() == SNAPSHOT_LEN && bytes[0] == TAG_SNAPSHOT {
        Option::Some(
            GameData {
                pos_player1: spec_u32_from_be(bytes[1], bytes[2], bytes[3], bytes[4]),
                pos_player2: spec_u32_from_be(bytes[5], bytes[6], bytes[7], bytes[8]),
                pos_ball_x: spec_u32_from_be(bytes[9], bytes[10], bytes[11], bytes[12]),
                pos_ball_y: spec_u32_from_be(bytes[13], bytes[14], bytes[15], bytes[16]),
                score_player_1: spec_u32_from_be(bytes[17], bytes[18], bytes[19], bytes[20]),
                score_player_2: spec_u32_from_be(bytes[21], bytes[22], bytes[23], bytes[24]),
            },
        )
    } else {
        Option::None
    }
}

impl GameData {
    /// Total, deterministic encoding: the snapshot tag followed by the six
    /// fields as big-endian words.
    pub fn encode(&self) -> (r: Vec<u8>)
        ensures
            r@ == spec_encode_game_data(*self),
    {
        let mut v: Vec<u8> = Vec::new();
        v.push(TAG_SNAPSHOT);
        push_u32_be(&mut v, self.pos_player1);
        push_u32_be(&mut v, self.pos_player2);
        push_u32_be(&mut v, self.pos_ball_x);
        push_u32_be(&mut v, self.pos_ball_y);
        push_u32_be(&mut v, self.score_player_1);
        push_u32_be(&mut v, self.score_player_2);
        proof {
            assert(v@ =~= spec_encode_game_data(*self));
        }
        v
    }

    /// Accepts exactly the encodings of snapshots; every other byte sequence
    /// is rejected as malformed.
    pub fn decode(bytes: &[u8]) -> (r: Result<GameData, CodecError>)
        ensures
            (match spec_decode_game_data(bytes@) {
                Option::Some(g) => r == Ok::<GameData, CodecError>(g),
                Option::None => r == Err::<GameData, CodecError>(CodecError::MalformedMessage),
            }),
    {
        if bytes.len() == SNAPSHOT_LEN && bytes[0] == TAG_SNAPSHOT {
            Ok(
                GameData {
                    pos_player1: read_u32_be(bytes, 1),
                    pos_player2: read_u32_be(bytes, 5),
                    pos_ball_x: read_u32_be(bytes, 9),
                    pos_ball_y: read_u32_be(bytes, 13),
                    score_player_1: read_u32_be(bytes, 17),
                    score_player_2: read_u32_be(bytes, 21),
                },
            )
        } else {
            Err(CodecError::MalformedMessage)
        }
    }
}

/// Law: decoding an encoded snapshot yields it back, every field bit for bit.
pub proof fn lemma_game_data_round_trip(g: GameData)
    ensures
        spec_decode_game_data(spec_encode_game_data(g)) == Option::Some(g),
{
    lemma_be_word_round_trip(g.pos_player1);
    lemma_be_word_round_trip(g.pos_player2);
    lemma_be_word_round_trip(g.pos_ball_x);
    lemma_be_word_round_trip(g.pos_ball_y);
    lemma_be_word_round_trip(g.score_player_1);
    lemma_be_word_round_trip(g.score_player_2);
}

/// Law: snapshot decoding succeeds only on exact encodings, so a successful
/// decode identifies the datagram's bytes completely.
pub proof fn lemma_game_data_decode_inverse(bytes: Seq<u8>, g: GameData)
    requires
        spec_decode_game_data(bytes) == Option::Some(g),
    ensures
        spec_encode_game_data(g) == bytes,
{
    lemma_be_bytes_round_trip(bytes[1], bytes[2], bytes[3], bytes[4]);
    lemma_be_bytes_round_trip(bytes[5], bytes[6], bytes[7], bytes[8]);
    lemma_be_bytes_round_trip(bytes[9], bytes[10], bytes[11], bytes[12]);
    lemma_be_bytes_round_trip(bytes[13], bytes[14], bytes[15], bytes[16]);
    lemma_be_bytes_round_trip(bytes[17], bytes[18], bytes[19], bytes[20]);
    lemma_be_bytes_round_trip(bytes[21], bytes[22], bytes[23], bytes[24]);
    assert(spec_encode_game_data(g) =~= bytes);
}

/// Law: the two message kinds are disjoint on the wire: no encoded command
/// decodes as a snapshot, and no encoded snapshot decodes as a command, so
/// the tag byte alone tells the receiver what arrived.
pub proof fn lemma_message_kinds_disjoint(c: UserCommand, g: GameData)
    ensures
        spec_decode_game_data(spec_encode_command(c)) == Option::<GameData>::None,
        spec_decode_command(spec_encode_game_data(g)) == Option::<UserCommand>::None,
{
}

/// Law: decoding an encoded command yields the command back.
pub proof fn lemma_command_round_trip(c: UserCommand)
    ensures
        spec_decode_command(spec_encode_command(c)) == Option::Some(c),
{
}

/// Law: command decoding succeeds only on exact encodings, so a successful
/// decode identifies the datagram's bytes completely.
pub proof fn lemma_command_decode_inverse(bytes: Seq<u8>, c: UserCommand)
    requires
        spec_decode_command(bytes) == Option::Some(c),
    ensures
        spec_encode_command(c) == bytes,
{
    assert(spec_encode_command(c) =~= bytes);
}

} // verus!
