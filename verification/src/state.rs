//! On-ledger record layouts.
//!
//! Two records matter to the engine. The asset record is the canonical
//! description of one digital asset; the state record is per-holder
//! auxiliary state tracked for programmable assets. Both start with a
//! one-byte discriminator, and the state record keeps its lock state at
//! a fixed offset so the lock guard can read it without a full decode.
//! The exact offsets are a private contract between this engine and the
//! account layout and must remain stable.

use vstd::prelude::*;

use crate::address::Address;
use crate::bytes::{
    copy_range, from_le, lemma_from_le_bound, lemma_le_bytes_len, lemma_le_round_trip,
    lemma_pow256_values, push_bytes, push_le_uint, read_le_uint,
};

verus! {

/// Offset of the discriminator byte in every record.
pub const DISCRIMINATOR_INDEX: usize = 0;

/// Offset of the lock-state byte in a state record.
pub const TOKEN_STATE_INDEX: usize = 2;

/// Discriminator of an asset record.
pub const ASSET_RECORD_KEY: u8 = 4;

/// Discriminator of a state record.
pub const STATE_RECORD_KEY: u8 = 19;

/// How an asset is classified; only the programmable variant changes
/// the engine's behaviour.
#[derive(Clone, Copy, Debug, PartialEq, Eq, Structural)]
pub enum TokenStandard {
    NonFungible,
    FungibleAsset,
    Fungible,
    NonFungibleEdition,
    ProgrammableNonFungible,
}

/// The lock state tracked by a state record.
#[derive(Clone, Copy, Debug, PartialEq, Eq, Structural)]
pub enum TokenState {
    Unlocked,
    Locked,
}

/// The role a delegate was granted on a holder account.
#[derive(Clone, Copy, Debug, PartialEq, Eq, Structural)]
pub enum TokenDelegateRole {
    Sale,
    Transfer,
    Utility,
    Staking,
}

pub open spec fn spec_standard_tag(s: TokenStandard) -> u8 {
    match s {
        TokenStandard::NonFungible => 0,
        TokenStandard::FungibleAsset => 1,
        TokenStandard::Fungible => 2,
        TokenStandard::NonFungibleEdition => 3,
        TokenStandard::ProgrammableNonFungible => 4,
    }
}

pub open spec fn spec_standard_from_tag(b: u8) -> Option<TokenStandard> {
    if b == 0 {
        Some(TokenStandard::NonFungible)
    } else if b == 1 {
        Some(TokenStandard::FungibleAsset)
    } else if b == 2 {
        Some(TokenStandard::Fungible)
    } else if b == 3 {
        Some(TokenStandard::NonFungibleEdition)
    } else if b == 4 {
        Some(TokenStandard::ProgrammableNonFungible)
    } else {
        None
    }
}

pub fn standard_tag(s: TokenStandard) -> (r: u8)
    ensures
        r == spec_standard_tag(s),
{
    match s {
        TokenStandard::NonFungible => 0,
        TokenStandard::FungibleAsset => 1,
        TokenStandard::Fungible => 2,
        TokenStandard::NonFungibleEdition => 3,
        TokenStandard::ProgrammableNonFungible => 4,
    }
}

pub fn standard_from_tag(b: u8) -> (r: Option<TokenStandard>)
    ensures
        r == spec_standard_from_tag(b),
{
    if b == 0 {
        Some(TokenStandard::NonFungible)
    } else if b == 1 {
        Some(TokenStandard::FungibleAsset)
    } else if b == 2 {
        Some(TokenStandard::Fungible)
    } else if b == 3 {
        Some(TokenStandard::NonFungibleEdition)
    } else if b == 4 {
        Some(TokenStandard::ProgrammableNonFungible)
    } else {
        None
    }
}

pub open spec fn spec_state_tag(s: TokenState) -> u8 {
    match s {
        TokenState::Unlocked => 0,
        TokenState::Locked => 1,
    }
}

pub open spec fn spec_state_from_tag(b: u8) -> Option<TokenState> {
    if b == 0 {
        Some(TokenState::Unlocked)
    } else if b == 1 {
        Some(TokenState::Locked)
    } else {
        None
    }
}

pub fn state_tag(s: TokenState) -> (r: u8)
    ensures
        r == spec_state_tag(s),
{
    match s {
        TokenState::Unlocked => 0,
        TokenState::Locked => 1,
    }
}

pub fn state_from_tag(b: u8) -> (r: Option<TokenState>)
    ensures
        r == spec_state_from_tag(b),
{
    if b == 0 {
        Some(TokenState::Unlocked)
    } else if b == 1 {
        Some(TokenState::Locked)
    } else {
        None
    }
}

pub open spec fn spec_role_tag(r: TokenDelegateRole) -> u8 {
    match r {
        TokenDelegateRole::Sale => 0,
        TokenDelegateRole::Transfer => 1,
        TokenDelegateRole::Utility => 2,
        TokenDelegateRole::Staking => 3,
    }
}

pub open spec fn spec_role_from_tag(b: u8) -> Option<TokenDelegateRole> {
    if b == 0 {
        Some(TokenDelegateRole::Sale)
    } else if b == 1 {
        Some(TokenDelegateRole::Transfer)
    } else if b == 2 {
        Some(TokenDelegateRole::Utility)
    } else if b == 3 {
        Some(TokenDelegateRole::Staking)
    } else {
        None
    }
}

pub fn role_tag(r: TokenDelegateRole) -> (t: u8)
    ensures
        t == spec_role_tag(r),
{
    match r {
        TokenDelegateRole::Sale => 0,
        TokenDelegateRole::Transfer => 1,
        TokenDelegateRole::Utility => 2,
        TokenDelegateRole::Staking => 3,
    }
}

pub fn role_from_tag(b: u8) -> (r: Option<TokenDelegateRole>)
    ensures
        r == spec_role_from_tag(b),
{
    if b == 0 {
        Some(TokenDelegateRole::Sale)
    } else if b == 1 {
        Some(TokenDelegateRole::Transfer)
    } else if b == 2 {
        Some(TokenDelegateRole::Utility)
    } else if b == 3 {
        Some(TokenDelegateRole::Staking)
    } else {
        None
    }
}

/// The reference an asset record holds to an externally stored rule set.
pub struct ProgrammableConfig {
    pub rule_set: Address,
}

impl View for ProgrammableConfig {
    type V = Seq<u8>;

    open spec fn view(&self) -> Seq<u8> {
        self.rule_set@
    }
}

impl Clone for ProgrammableConfig {
    fn clone(&self) -> (r: Self)
        ensures
            r@ == self@,
    {
        ProgrammableConfig { rule_set: self.rule_set.clone() }
    }
}

/// The canonical description of one digital asset.
pub struct AssetRecord {
    pub update_authority: Address,
    pub name: Vec<u8>,
    pub is_mutable: bool,
    pub token_standard: Option<TokenStandard>,
    pub programmable_config: Option<ProgrammableConfig>,
}

/// The mathematical image of an [`AssetRecord`].
pub ghost struct AssetRecordView {
    pub update_authority: Seq<u8>,
    pub name: Seq<u8>,
    pub is_mutable: bool,
    pub token_standard: Option<TokenStandard>,
    pub programmable_config: Option<Seq<u8>>,
}

impl View for AssetRecord {
    type V = AssetRecordView;

    open spec fn view(&self) -> AssetRecordView {
        AssetRecordView {
            update_authority: self.update_authority@,
            name: self.name@,
            is_mutable: self.is_mutable,
            token_standard: self.token_standard,
            programmable_config: match self.programmable_config {
                Some(c) => Some(c@),
                None => None,
            },
        }
    }
}

pub open spec fn spec_asset_record_wf(v: AssetRecordView) -> bool {
    &&& v.update_authority.len() == 32
    &&& v.name.len() < 0x1_0000_0000
    &&& (v.programmable_config matches Some(rs) ==> rs.len() == 32)
}

impl AssetRecord {
    pub open spec fn wf(&self) -> bool {
        spec_asset_record_wf(self@)
    }

    /// Whether this asset is under the programmable regime.
    pub open spec fn spec_is_programmable(&self) -> bool {
        self.token_standard == Some(TokenStandard::ProgrammableNonFungible)
    }

    pub fn is_programmable(&self) -> (r: bool)
        ensures
            r == self.spec_is_programmable(),
    {
        match self.token_standard {
            Some(TokenStandard::ProgrammableNonFungible) => true,
            _ => false,
        }
    }
}

/// Decodes an asset record from `b`; `None` on any malformed byte.
pub open spec fn spec_decode_asset_record(b: Seq<u8>) -> Option<AssetRecordView> {
    if b.len() < 35 {
        None
    } else if b[DISCRIMINATOR_INDEX as int] != ASSET_RECORD_KEY {
        None
    } else if b[33] != 0 && b[33] != 1 {
        None
    } else if b[34] == 0 {
        spec_decode_asset_config(b, 35, b.subrange(1, 33), b[33] == 1, None)
    } else if b[34] == 1 {
        if b.len() < 36 {
            None
        } else {
            match spec_standard_from_tag(b[35]) {
                None => None,
                Some(ts) => spec_decode_asset_config(b, 36, b.subrange(1, 33), b[33] == 1, Some(ts)),
            }
        }
    } else {
        None
    }
}

pub open spec fn spec_decode_asset_config(
    b: Seq<u8>,
    pos: int,
    authority: Seq<u8>,
    is_mutable: bool,
    ts: Option<TokenStandard>,
) -> Option<AssetRecordView> {
    if b.len() <= pos {
        None
    } else if b[pos] == 0 {
        spec_decode_asset_name(b, pos + 1, authority, is_mutable, ts, None)
    } else if b[pos] == 1 {
        if b.len() < pos + 33 {
            None
        } else {
            spec_decode_asset_name(
                b,
                pos + 33,
                authority,
                is_mutable,
                ts,
                Some(b.subrange(pos + 1, pos + 33)),
            )
        }
    } else {
        None
    }
}

pub open spec fn spec_decode_asset_name(
    b: Seq<u8>,
    pos: int,
    authority: Seq<u8>,
    is_mutable: bool,
    ts: Option<TokenStandard>,
    cfg: Option<Seq<u8>>,
) -> Option<AssetRecordView> {
    if b.len() < pos + 4 {
        None
    } else if b.len() != pos + 4 + from_le(b.subrange(pos, pos + 4)) {
        None
    } else {
        Some(
            AssetRecordView {
                update_authority: authority,
                name: b.subrange(pos + 4, b.len() as int),
                is_mutable,
                token_standard: ts,
                programmable_config: cfg,
            },
        )
    }
}

impl AssetRecord {
    /// Serialises the record; the bytes decode back to this record.
    pub fn encode(&self) -> (out: Vec<u8>)
        requires
            self.wf(),
        ensures
            spec_decode_asset_record(out@) == Some(self@),
            out@.len() > DISCRIMINATOR_INDEX,
            out@[DISCRIMINATOR_INDEX as int] == ASSET_RECORD_KEY,
    {
        let mut out: Vec<u8> = Vec::new();
        out.push(ASSET_RECORD_KEY);
        push_bytes(&mut out, &self.update_authority.bytes);
        out.push(if self.is_mutable {
            1
        } else {
            0
        });
        match &self.token_standard {
            None => out.push(0),
            Some(ts) => {
                out.push(1);
                out.push(standard_tag(*ts));
            },
        }
        let ghost cfg_pos = out@.len() as int;
        match &self.programmable_config {
            None => out.push(0),
            Some(c) => {
                out.push(1);
                push_bytes(&mut out, &c.rule_set.bytes);
            },
        }
        let ghost name_pos = out@.len() as int;
        push_le_uint(&mut out, self.name.len() as u64, 4);
        push_bytes(&mut out, &self.name);
        proof {
            lemma_pow256_values();
            lemma_le_bytes_len(self.name@.len() as int, 4);
            lemma_le_round_trip(self.name@.len() as int, 4);
            let b = out@;
            assert(b.subrange(1, 33) =~= self.update_authority@);
            assert(b.subrange(name_pos, name_pos + 4) =~= crate::bytes::le_bytes(
                self.name@.len() as int,
                4,
            ));
            assert(b.subrange(name_pos + 4, b.len() as int) =~= self.name@);
            if self.programmable_config is Some {
                assert(b.subrange(cfg_pos + 1, cfg_pos + 33)
                    =~= self.programmable_config->0.rule_set@);
            }
        }
        out
    }
}

/// Decodes an asset record; `None` on any malformed byte.
pub fn decode_asset_record(b: &Vec<u8>) -> (r: Option<AssetRecord>)
    ensures
        match r {
            Some(rec) => spec_decode_asset_record(b@) == Some(rec@) && rec.wf(),
            None => spec_decode_asset_record(b@) is None,
        },
{
    if b.len() < 35 {
        return None;
    }
    if b[DISCRIMINATOR_INDEX] != ASSET_RECORD_KEY {
        return None;
    }
    let authority = Address { bytes: copy_range(b, 1, 32) };
    let mutable_byte = b[33];
    if mutable_byte != 0 && mutable_byte != 1 {
        return None;
    }
    let is_mutable = mutable_byte == 1;
    let std_byte = b[34];
    let mut pos: usize = 35;
    let token_standard: Option<TokenStandard> = if std_byte == 0 {
        None
    } else if std_byte == 1 {
        if b.len() < 36 {
            return None;
        }
        match standard_from_tag(b[35]) {
            None => { return None; },
            Some(ts) => {
                pos = 36;
                Some(ts)
            },
        }
    } else {
        return None;
    };
    if b.len() <= pos {
        return None;
    }
    let cfg_byte = b[pos];
    let programmable_config: Option<ProgrammableConfig> = if cfg_byte == 0 {
        pos = pos + 1;
        None
    } else if cfg_byte == 1 {
        if b.len() < pos + 33 {
            return None;
        }
        let rule_set = Address { bytes: copy_range(b, pos + 1, 32) };
        pos = pos + 33;
        Some(ProgrammableConfig { rule_set })
    } else {
        return None;
    };
    if b.len() < pos + 4 {
        return None;
    }
    let n = read_le_uint(b, pos, 4);
    proof {
        lemma_from_le_bound(b@.subrange(pos as int, pos + 4));
        lemma_pow256_values();
    }
    if (b.len() - pos - 4) as u64 != n {
        return None;
    }
    let name = copy_range(b, pos + 4, b.len() - pos - 4);
    let rec = AssetRecord { update_authority: authority, name, is_mutable, token_standard, programmable_config };
    proof {
        assert(b@.subrange(pos + 4, b@.len() as int) =~= rec.name@);
    }
    Some(rec)
}

/// Per-holder auxiliary state tracked for programmable assets.
pub struct StateRecord {
    pub bump: u8,
    pub state: TokenState,
    pub delegate: Option<Address>,
    pub delegate_role: Option<TokenDelegateRole>,
}

/// The mathematical image of a [`StateRecord`].
pub ghost struct StateRecordView {
    pub bump: u8,
    pub state: TokenState,
    pub delegate: Option<Seq<u8>>,
    pub delegate_role: Option<TokenDelegateRole>,
}

impl View for StateRecord {
    type V = StateRecordView;

    open spec fn view(&self) -> StateRecordView {
        StateRecordView {
            bump: self.bump,
            state: self.state,
            delegate: match self.delegate {
                Some(d) => Some(d@),
                None => None,
            },
            delegate_role: self.delegate_role,
        }
    }
}

impl StateRecord {
    pub open spec fn wf(&self) -> bool {
        self.delegate matches Some(d) ==> d.wf()
    }
}

/// Decodes a state record from `b`; `None` on any malformed byte.
pub open spec fn spec_decode_state_record(b: Seq<u8>) -> Option<StateRecordView> {
    if b.len() < 5 {
        None
    } else if b[DISCRIMINATOR_INDEX as int] != STATE_RECORD_KEY {
        None
    } else {
        match spec_state_from_tag(b[TOKEN_STATE_INDEX as int]) {
            None => None,
            Some(state) => {
                if b[3] == 0 {
                    spec_decode_state_role(b, 4, b[1], state, None)
                } else if b[3] == 1 {
                    if b.len() < 37 {
                        None
                    } else {
                        spec_decode_state_role(b, 36, b[1], state, Some(b.subrange(4, 36)))
                    }
                } else {
                    None
                }
            },
        }
    }
}

pub open spec fn spec_decode_state_role(
    b: Seq<u8>,
    pos: int,
    bump: u8,
    state: TokenState,
    delegate: Option<Seq<u8>>,
) -> Option<StateRecordView> {
    if b.len() <= pos {
        None
    } else if b[pos] == 0 {
        if b.len() == pos + 1 {
            Some(StateRecordView { bump, state, delegate, delegate_role: None })
        } else {
            None
        }
    } else if b[pos] == 1 {
        if b.len() != pos + 2 {
            None
        } else {
            match spec_role_from_tag(b[pos + 1]) {
                None => None,
                Some(role) => Some(
                    StateRecordView { bump, state, delegate, delegate_role: Some(role) },
                ),
            }
        }
    } else {
        None
    }
}

impl StateRecord {
    /// Serialises the record; the bytes decode back to this record, and
    /// the discriminator and lock-state bytes sit at their fixed offsets,
    /// which ties the lock guard's fast path to the full decode.
    pub fn encode(&self) -> (out: Vec<u8>)
        requires
            self.wf(),
        ensures
            spec_decode_state_record(out@) == Some(self@),
            out@.len() > TOKEN_STATE_INDEX,
            out@[DISCRIMINATOR_INDEX as int] == STATE_RECORD_KEY,
            out@[TOKEN_STATE_INDEX as int] == spec_state_tag(self.state),
    {
        let mut out: Vec<u8> = Vec::new();
        out.push(STATE_RECORD_KEY);
        out.push(self.bump);
        out.push(state_tag(self.state));
        let ghost delegate_pos = out@.len() as int;
        match &self.delegate {
            None => out.push(0),
            Some(d) => {
                out.push(1);
                push_bytes(&mut out, &d.bytes);
            },
        }
        match &self.delegate_role {
            None => out.push(0),
            Some(role) => {
                out.push(1);
                out.push(role_tag(*role));
            },
        }
        proof {
            if self.delegate is Some {
                assert(out@.subrange(4, 36) =~= self.delegate->0@);
            }
        }
        out
    }
}

/// Decodes a state record; `None` on any malformed byte.
pub fn decode_state_record(b: &Vec<u8>) -> (r: Option<StateRecord>)
    ensures
        match r {
            Some(rec) => spec_decode_state_record(b@) == Some(rec@) && rec.wf(),
            None => spec_decode_state_record(b@) is None,
        },
{
    if b.len() < 5 {
        return None;
    }
    if b[DISCRIMINATOR_INDEX] != STATE_RECORD_KEY {
        return None;
    }
    let state = match state_from_tag(b[TOKEN_STATE_INDEX]) {
        None => { return None; },
        Some(s) => s,
    };
    let bump = b[1];
    let mut pos: usize = 4;
    let delegate: Option<Address> = if b[3] == 0 {
        None
    } else if b[3] == 1 {
        if b.len() < 37 {
            return None;
        }
        pos = 36;
        Some(Address { bytes: copy_range(b, 4, 32) })
    } else {
        return None;
    };
    if b.len() <= pos {
        return None;
    }
    let delegate_role: Option<TokenDelegateRole> = if b[pos] == 0 {
        if b.len() != pos + 1 {
            return None;
        }
        None
    } else if b[pos] == 1 {
        if b.len() != pos + 2 {
            return None;
        }
        match role_from_tag(b[pos + 1]) {
            None => { return None; },
            Some(role) => Some(role),
        }
    } else {
        return None;
    };
    Some(StateRecord { bump, state, delegate, delegate_role })
}

/// The lock guard's fast path agrees with the full decode: whenever the
/// bytes decode to a state record, the byte at the fixed lock-state
/// offset is exactly the tag of the decoded lock state.
pub proof fn lemma_lock_byte_matches_decode(b: Seq<u8>, v: StateRecordView)
    requires
        spec_decode_state_record(b) == Some(v),
    ensures
        b.len() > TOKEN_STATE_INDEX,
        b[DISCRIMINATOR_INDEX as int] == STATE_RECORD_KEY,
        spec_state_from_tag(b[TOKEN_STATE_INDEX as int]) == Some(v.state),
        (b[TOKEN_STATE_INDEX as int] == spec_state_tag(TokenState::Locked)) <==> (v.state
            == TokenState::Locked),
{
}

} // verus!
