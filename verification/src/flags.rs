//! Fixed-size bitmask types, each encoded and decoded as a single byte.
//! Unused bits are reserved: encoding never sets them, decoding ignores them.

use vstd::prelude::*;

use crate::error::DecodeError;
use crate::wire::byte_read;

verus! {

/// The flags byte of a command-graph node. Bit layout: bit 0 literal node,
/// bit 1 argument node, bit 2 executable, bit 3 redirect present,
/// bit 4 suggestions type present. At most one of the literal and argument
/// bits is set; a root node has neither.
#[derive(Copy, Clone, PartialEq, Eq, Structural, Debug)]
pub struct BrigadierFlags {
    pub node_literal: bool,
    pub node_argument: bool,
    pub executable: bool,
    pub has_redirect: bool,
    pub has_suggestions_type: bool,
}

/// Which bounds a bit-gated numeric range parser carries. Bit 0 gates the
/// minimum, bit 1 the maximum.
#[derive(Copy, Clone, PartialEq, Eq, Structural, Debug)]
pub struct MinMax {
    pub min: bool,
    pub max: bool,
}

/// How an entity argument may resolve. Bit 0 restricts it to one target,
/// bit 1 to players.
#[derive(Copy, Clone, PartialEq, Eq, Structural, Debug)]
pub struct EntitySelector {
    pub entity_or_player: bool,
    pub players_only: bool,
}

/// Whether a score-holder argument may name several holders (bit 0).
#[derive(Copy, Clone, PartialEq, Eq, Structural, Debug)]
pub struct ScoreHolderSelector {
    pub multiple: bool,
}

impl BrigadierFlags {
    /// The byte this flag set encodes to.
    pub open spec fn spec_byte(self) -> u8 {
        (if self.node_literal {
            0x01u8
        } else {
            0u8
        }) | (if self.node_argument {
            0x02u8
        } else {
            0u8
        }) | (if self.executable {
            0x04u8
        } else {
            0u8
        }) | (if self.has_redirect {
            0x08u8
        } else {
            0u8
        }) | (if self.has_suggestions_type {
            0x10u8
        } else {
            0u8
        })
    }

    /// The flag set a byte decodes to; reserved bits are ignored.
    pub open spec fn spec_from_byte(byte: u8) -> BrigadierFlags {
        BrigadierFlags {
            node_literal: byte & 0x01 != 0,
            node_argument: byte & 0x02 != 0,
            executable: byte & 0x04 != 0,
            has_redirect: byte & 0x08 != 0,
            has_suggestions_type: byte & 0x10 != 0,
        }
    }

    pub fn new(
        node_literal: bool,
        node_argument: bool,
        executable: bool,
        has_redirect: bool,
        has_suggestions_type: bool,
    ) -> (r: BrigadierFlags)
        ensures
            r == (BrigadierFlags {
                node_literal,
                node_argument,
                executable,
                has_redirect,
                has_suggestions_type,
            }),
    {
        BrigadierFlags { node_literal, node_argument, executable, has_redirect, has_suggestions_type }
    }

    /// Whether this flag set marks the synthetic root: neither literal nor
    /// argument.
    pub open spec fn spec_is_root(self) -> bool {
        !self.node_argument && !self.node_literal
    }

    /// Whether this node is the synthetic root: neither literal nor argument.
    pub fn is_root(&self) -> (r: bool)
        ensures
            r == self.spec_is_root(),
    {
        !self.node_argument && !self.node_literal
    }

    pub fn is_literal(&self) -> (r: bool)
        ensures
            r == self.node_literal,
    {
        self.node_literal
    }

    pub fn is_argument(&self) -> (r: bool)
        ensures
            r == self.node_argument,
    {
        self.node_argument
    }

    /// Builds the flag set a byte denotes; reserved bits are ignored.
    pub fn from_byte(byte: u8) -> (r: BrigadierFlags)
        ensures
            r == BrigadierFlags::spec_from_byte(byte),
    {
        BrigadierFlags {
            node_literal: byte & 0x01 != 0,
            node_argument: byte & 0x02 != 0,
            executable: byte & 0x04 != 0,
            has_redirect: byte & 0x08 != 0,
            has_suggestions_type: byte & 0x10 != 0,
        }
    }

    /// Appends the single flags byte.
    pub fn encode(&self, out: &mut Vec<u8>)
        ensures
            final(out)@ == old(out)@.push(self.spec_byte()),
    {
        let byte = (if self.node_literal {
            0x01u8
        } else {
            0u8
        }) | (if self.node_argument {
            0x02u8
        } else {
            0u8
        }) | (if self.executable {
            0x04u8
        } else {
            0u8
        }) | (if self.has_redirect {
            0x08u8
        } else {
            0u8
        }) | (if self.has_suggestions_type {
            0x10u8
        } else {
            0u8
        });
        out.push(byte);
    }

    /// Reads one flags byte at `pos`.
    pub fn decode(bytes: &[u8], pos: usize) -> (r: Result<(BrigadierFlags, usize), DecodeError>)
        ensures
            match r {
                Ok((f, end)) => pos < bytes@.len() && end == pos + 1 && f
                    == BrigadierFlags::spec_from_byte(bytes@[pos as int]),
                Err(e) => byte_read(bytes@, pos as int) == Err::<(u8, int), DecodeError>(e),
            },
    {
        if pos >= bytes.len() {
            return Err(DecodeError::UnexpectedEnd);
        }
        let f = BrigadierFlags::from_byte(bytes[pos]);
        proof {
            BrigadierFlags::lemma_round_trip(f);
            lemma_flags_byte_low(bytes@[pos as int]);
        }
        Ok((f, pos + 1))
    }

    /// Decoding inverts encoding for every combination of the five flag bits.
    pub proof fn lemma_round_trip(f: BrigadierFlags)
        ensures
            BrigadierFlags::spec_from_byte(f.spec_byte()) == f,
    {
        let l: u8 = if f.node_literal { 0x01 } else { 0 };
        let a: u8 = if f.node_argument { 0x02 } else { 0 };
        let e: u8 = if f.executable { 0x04 } else { 0 };
        let r: u8 = if f.has_redirect { 0x08 } else { 0 };
        let s: u8 = if f.has_suggestions_type { 0x10 } else { 0 };
        let b = l | a | e | r | s;
        assert(((b & 0x01 != 0) == (l == 0x01)) && ((b & 0x02 != 0) == (a == 0x02)) && ((b & 0x04
            != 0) == (e == 0x04)) && ((b & 0x08 != 0) == (r == 0x08)) && ((b & 0x10 != 0) == (s
            == 0x10))) by (bit_vector)
            requires
                l == 0 || l == 0x01,
                a == 0 || a == 0x02,
                e == 0 || e == 0x04,
                r == 0 || r == 0x08,
                s == 0 || s == 0x10,
                b == (l | a | e | r | s),
        ;
    }
}

/// A decoded flags byte re-encodes to the byte's low five bits; in
/// particular any byte below 0x20 survives a decode-encode round trip.
pub proof fn lemma_flags_byte_low(byte: u8)
    ensures
        BrigadierFlags::spec_from_byte(byte).spec_byte() == byte & 0x1f,
{
    let f = BrigadierFlags::spec_from_byte(byte);
    let l: u8 = if f.node_literal { 0x01 } else { 0 };
    let a: u8 = if f.node_argument { 0x02 } else { 0 };
    let e: u8 = if f.executable { 0x04 } else { 0 };
    let r: u8 = if f.has_redirect { 0x08 } else { 0 };
    let s: u8 = if f.has_suggestions_type { 0x10 } else { 0 };
    assert((l | a | e | r | s) == byte & 0x1f) by (bit_vector)
        requires
            l == (if byte & 0x01 != 0 { 0x01u8 } else { 0u8 }),
            a == (if byte & 0x02 != 0 { 0x02u8 } else { 0u8 }),
            e == (if byte & 0x04 != 0 { 0x04u8 } else { 0u8 }),
            r == (if byte & 0x08 != 0 { 0x08u8 } else { 0u8 }),
            s == (if byte & 0x10 != 0 { 0x10u8 } else { 0u8 }),
    ;
}

impl MinMax {
    /// The byte this flag pair encodes to.
    pub open spec fn spec_byte(self) -> u8 {
        (if self.min {
            0x01u8
        } else {
            0u8
        }) | (if self.max {
            0x02u8
        } else {
            0u8
        })
    }

    /// The flag pair a byte decodes to; reserved bits are ignored.
    pub open spec fn spec_from_byte(byte: u8) -> MinMax {
        MinMax { min: byte & 0x01 != 0, max: byte & 0x02 != 0 }
    }

    pub fn new(min: bool, max: bool) -> (r: MinMax)
        ensures
            r == (MinMax { min, max }),
    {
        MinMax { min, max }
    }

    /// Builds the flag pair a byte denotes; reserved bits are ignored.
    pub fn from_byte(byte: u8) -> (r: MinMax)
        ensures
            r == MinMax::spec_from_byte(byte),
    {
        MinMax { min: byte & 0x01 != 0, max: byte & 0x02 != 0 }
    }

    /// Appends the single flags byte.
    pub fn encode(&self, out: &mut Vec<u8>)
        ensures
            final(out)@ == old(out)@.push(self.spec_byte()),
    {
        let byte = (if self.min {
            0x01u8
        } else {
            0u8
        }) | (if self.max {
            0x02u8
        } else {
            0u8
        });
        out.push(byte);
    }

    /// Decoding inverts encoding for every combination of the two bits.
    pub proof fn lemma_round_trip(f: MinMax)
        ensures
            MinMax::spec_from_byte(f.spec_byte()) == f,
    {
        let m: u8 = if f.min { 0x01 } else { 0 };
        let x: u8 = if f.max { 0x02 } else { 0 };
        assert((((m | x) & 0x01 != 0) == (m == 0x01)) && (((m | x) & 0x02 != 0) == (x == 0x02)))
            by (bit_vector)
            requires
                m == 0 || m == 0x01,
                x == 0 || x == 0x02,
        ;
    }
}

impl EntitySelector {
    /// The byte this flag pair encodes to.
    pub open spec fn spec_byte(self) -> u8 {
        (if self.entity_or_player {
            0x01u8
        } else {
            0u8
        }) | (if self.players_only {
            0x02u8
        } else {
            0u8
        })
    }

    /// The flag pair a byte decodes to; reserved bits are ignored.
    pub open spec fn spec_from_byte(byte: u8) -> EntitySelector {
        EntitySelector { entity_or_player: byte & 0x01 != 0, players_only: byte & 0x02 != 0 }
    }

    pub fn new(entity_or_player: bool, players_only: bool) -> (r: EntitySelector)
        ensures
            r == (EntitySelector { entity_or_player, players_only }),
    {
        EntitySelector { entity_or_player, players_only }
    }

    /// Builds the flag pair a byte denotes; reserved bits are ignored.
    pub fn from_byte(byte: u8) -> (r: EntitySelector)
        ensures
            r == EntitySelector::spec_from_byte(byte),
    {
        EntitySelector { entity_or_player: byte & 0x01 != 0, players_only: byte & 0x02 != 0 }
    }

    /// Appends the single flags byte.
    pub fn encode(&self, out: &mut Vec<u8>)
        ensures
            final(out)@ == old(out)@.push(self.spec_byte()),
    {
        let byte = (if self.entity_or_player {
            0x01u8
        } else {
            0u8
        }) | (if self.players_only {
            0x02u8
        } else {
            0u8
        });
        out.push(byte);
    }

    /// Decoding inverts encoding for every combination of the two bits.
    pub proof fn lemma_round_trip(f: EntitySelector)
        ensures
            EntitySelector::spec_from_byte(f.spec_byte()) == f,
    {
        let m: u8 = if f.entity_or_player { 0x01 } else { 0 };
        let x: u8 = if f.players_only { 0x02 } else { 0 };
        assert((((m | x) & 0x01 != 0) == (m == 0x01)) && (((m | x) & 0x02 != 0) == (x == 0x02)))
            by (bit_vector)
            requires
                m == 0 || m == 0x01,
                x == 0 || x == 0x02,
        ;
    }
}

impl ScoreHolderSelector {
    /// The byte this flag encodes to.
    pub open spec fn spec_byte(self) -> u8 {
        if self.multiple {
            0x01u8
        } else {
            0u8
        }
    }

    /// The flag a byte decodes to; reserved bits are ignored.
    pub open spec fn spec_from_byte(byte: u8) -> ScoreHolderSelector {
        ScoreHolderSelector { multiple: byte & 0x01 != 0 }
    }

    pub fn new(multiple: bool) -> (r: ScoreHolderSelector)
        ensures
            r == (ScoreHolderSelector { multiple }),
    {
        ScoreHolderSelector { multiple }
    }

    /// Builds the flag a byte denotes; reserved bits are ignored.
    pub fn from_byte(byte: u8) -> (r: ScoreHolderSelector)
        ensures
            r == ScoreHolderSelector::spec_from_byte(byte),
    {
        ScoreHolderSelector { multiple: byte & 0x01 != 0 }
    }

    /// Appends the single flags byte.
    pub fn encode(&self, out: &mut Vec<u8>)
        ensures
            final(out)@ == old(out)@.push(self.spec_byte()),
    {
        out.push(if self.multiple {
            0x01u8
        } else {
            0u8
        });
    }

    /// Decoding inverts encoding for both values of the bit.
    pub proof fn lemma_round_trip(f: ScoreHolderSelector)
        ensures
            ScoreHolderSelector::spec_from_byte(f.spec_byte()) == f,
    {
        assert(0x01u8 & 0x01 != 0 && 0u8 & 0x01 == 0) by (bit_vector);
    }
}

} // verus!
