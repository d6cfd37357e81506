//! Mathematical model of one contest instance: the persisted record, the
//! error taxonomy, and the two state transitions as spec functions.

use vstd::prelude::*;

verus! {

/// Names the fields of the persisted record. One contest instance owns
/// exactly one such record; every field but `Ended` is written once, by
/// initialization, and never changed afterwards.
#[derive(Clone)]
pub enum DataKey {
    /// Identity of the committing party, who initializes the game.
    Admin,
    /// Identity of the challenger, the only caller allowed to recover.
    Player2,
    /// 32-byte commitment: the hash of the secret, stored publicly.
    NameCommit,
    /// Address of the session-registry collaborator.
    GameHub,
    /// Address of the proof-verifier collaborator.
    Verifier,
    /// Opaque verification-key bytes, passed through to the verifier.
    Vk,
    /// Session identifier, derived from the ledger sequence at setup.
    GameId,
    /// Set once by initialization; gates every other operation.
    Initialized,
    /// One-way flag: flips to true when the challenger wins.
    Ended,
}

/// Typed rejection signals. Every guard failure surfaces as one of these
/// and leaves the stored record untouched.
#[derive(Copy, Clone, Debug, PartialEq, Eq, Structural)]
pub enum Error {
    /// Setup attempted twice.
    AlreadyInitialized,
    /// An operation that needs the record ran before setup.
    NotInitialized,
    /// Recovery attempted after the contest already concluded.
    AlreadyEnded,
    /// Submitted public inputs differ from the stored commitment in
    /// count or value.
    WrongPublicInput,
    /// The verifier rejected the proof.
    ProofInvalid,
    /// The caller is not the designated challenger.
    NotPlayer2,
}

/// The wire code of each error, as clients see it.
pub open spec fn spec_error_code(e: Error) -> u32 {
    match e {
        Error::AlreadyInitialized => 1,
        Error::NotInitialized => 2,
        Error::AlreadyEnded => 3,
        Error::WrongPublicInput => 4,
        Error::ProofInvalid => 5,
        Error::NotPlayer2 => 6,
    }
}

impl Error {
    /// Machine-readable code of this error.
    pub fn code(&self) -> (c: u32)
        ensures
            c == spec_error_code(*self),
    {
        match self {
            Error::AlreadyInitialized => 1,
            Error::NotInitialized => 2,
            Error::AlreadyEnded => 3,
            Error::WrongPublicInput => 4,
            Error::ProofInvalid => 5,
            Error::NotPlayer2 => 6,
        }
    }
}

/// Abstract value of one contest instance: the nine persisted fields,
/// with identities and byte strings as plain byte sequences.
#[verifier::ext_equal]
pub ghost struct GameView {
    pub admin: Seq<u8>,
    pub player2: Seq<u8>,
    pub name_commit: Seq<u8>,
    pub game_hub: Seq<u8>,
    pub verifier_addr: Seq<u8>,
    pub vk: Seq<u8>,
    pub game_id: u32,
    pub initialized: bool,
    pub ended: bool,
}

impl GameView {
    /// The state of an instance before initialization.
    pub open spec fn uninit() -> GameView {
        GameView {
            admin: Seq::empty(),
            player2: Seq::empty(),
            name_commit: Seq::empty(),
            game_hub: Seq::empty(),
            verifier_addr: Seq::empty(),
            vk: Seq::empty(),
            game_id: 0,
            initialized: false,
            ended: false,
        }
    }

    /// The same record with the terminal flag set.
    pub open spec fn with_ended(self) -> GameView {
        GameView { ended: true, ..self }
    }
}

/// Internal validity of a record: before setup nothing is stored, so the
/// tolerant status read reports a zero session and a false terminal
/// flag; after setup the commitment is exactly 32 bytes.
pub open spec fn wf_view(v: GameView) -> bool {
    &&& !v.initialized ==> v.game_id == 0 && !v.ended
    &&& v.initialized ==> v.name_commit.len() == 32
}

/// Arguments of initialization, as the model sees them.
#[verifier::ext_equal]
pub ghost struct InitArgs {
    pub admin: Seq<u8>,
    pub player2: Seq<u8>,
    pub name_commit: Seq<u8>,
    pub game_hub: Seq<u8>,
    pub verifier_addr: Seq<u8>,
    pub vk: Seq<u8>,
    pub ledger_sequence: u32,
}

/// Arguments of a recovery attempt, as the model sees them.
#[verifier::ext_equal]
pub ghost struct RecoverArgs {
    pub player: Seq<u8>,
    pub public_inputs: Seq<Seq<u8>>,
}

/// The record written by a successful initialization.
pub open spec fn init_view(a: InitArgs) -> GameView {
    GameView {
        admin: a.admin,
        player2: a.player2,
        name_commit: a.name_commit,
        game_hub: a.game_hub,
        verifier_addr: a.verifier_addr,
        vk: a.vk,
        game_id: a.ledger_sequence,
        initialized: true,
        ended: false,
    }
}

/// The initialization transition: a second setup is rejected without
/// effect; otherwise the whole record is created atomically, with the
/// session identifier taken from the ledger sequence.
pub open spec fn spec_initialize(s: GameView, a: InitArgs) -> (GameView, Result<(), Error>) {
    if s.initialized {
        (s, Err(Error::AlreadyInitialized))
    } else {
        (init_view(a), Ok(()))
    }
}

/// True when the submitted public inputs answer the stored commitment:
/// exactly one value, equal to it.
pub open spec fn inputs_match(s: GameView, public_inputs: Seq<Seq<u8>>) -> bool {
    public_inputs.len() == 1 && public_inputs[0] == s.name_commit
}

/// The caller guards of a recovery attempt, in their fixed order: the
/// record must exist, the contest must not have concluded, and the
/// caller must be the stored challenger.
pub open spec fn spec_recover_caller_guard(s: GameView, player: Seq<u8>) -> Result<(), Error> {
    if !s.initialized {
        Err(Error::NotInitialized)
    } else if s.ended {
        Err(Error::AlreadyEnded)
    } else if player != s.player2 {
        Err(Error::NotPlayer2)
    } else {
        Ok(())
    }
}

/// The recovery transition, given the verifier's answer on the proof.
/// Guards run in a fixed order; only the final case flips the terminal
/// flag, and it changes nothing else.
pub open spec fn spec_recover(s: GameView, a: RecoverArgs, proof_valid: bool) -> (
    GameView,
    Result<bool, Error>,
) {
    match spec_recover_caller_guard(s, a.player) {
        Err(e) => (s, Err(e)),
        Ok(()) => if !inputs_match(s, a.public_inputs) {
            (s, Err(Error::WrongPublicInput))
        } else if !proof_valid {
            (s, Err(Error::ProofInvalid))
        } else {
            (s.with_ended(), Ok(true))
        },
    }
}

} // verus!
