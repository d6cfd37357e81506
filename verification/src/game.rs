//! The contest state machine: one-time initialization, the guarded
//! single-use recovery operation, and the read-only queries.

use vstd::prelude::*;

use crate::addr::Address;
use crate::bytes::bytes_eq;
use crate::bytes::copy_bytes;
use crate::state::Error;
use crate::state::GameView;
use crate::state::InitArgs;
use crate::state::RecoverArgs;
use crate::state::inputs_match;
use crate::state::spec_initialize;
use crate::state::spec_recover;
use crate::state::spec_recover_caller_guard;
use crate::state::wf_view;

verus! {

/// Session registry collaborator: the remote service that is told when
/// a session starts and how it ended. Implementations wrap the real
/// registry contract; tests substitute recording stubs.
pub trait GameHub {
    /// Registers a new session under `session_id` for the two players,
    /// with both score placeholders zero.
    fn start_game(
        &mut self,
        game_id: &Address,
        session_id: u32,
        player1: &Address,
        player2: &Address,
        player1_points: i128,
        player2_points: i128,
    );

    /// Reports the result of the session.
    fn end_game(&mut self, session_id: u32, challenger_won: bool);
}

/// Proof verifier collaborator: an opaque boolean oracle over a proof,
/// its public inputs and a verification key.
pub trait UltraHonkVerifier {
    /// Checks the proof; the answer is the oracle's alone.
    fn verify(&mut self, proof: &Vec<u8>, public_inputs: &Vec<Vec<u8>>, vk: &Vec<u8>) -> bool;
}

/// One contest instance: the nine persisted fields of the record. All
/// of them but the terminal flag are written once, by `initialize`.
pub struct ChihiroGame {
    admin: Address,
    player2: Address,
    name_commit: Vec<u8>,
    game_hub: Address,
    verifier_addr: Address,
    vk: Vec<u8>,
    game_id: u32,
    initialized: bool,
    ended: bool,
}

impl View for ChihiroGame {
    type V = GameView;

    closed spec fn view(&self) -> GameView {
        GameView {
            admin: self.admin@,
            player2: self.player2@,
            name_commit: self.name_commit@,
            game_hub: self.game_hub@,
            verifier_addr: self.verifier_addr@,
            vk: self.vk@,
            game_id: self.game_id,
            initialized: self.initialized,
            ended: self.ended,
        }
    }
}

impl ChihiroGame {
    #[verifier::type_invariant]
    spec fn inv(self) -> bool {
        wf_view(self.view())
    }

    /// A fresh, uninitialized instance.
    pub fn new() -> (g: ChihiroGame)
        ensures
            g@ == GameView::uninit(),
    {
        let g = ChihiroGame {
            admin: Address::from_bytes(Vec::new()),
            player2: Address::from_bytes(Vec::new()),
            name_commit: Vec::new(),
            game_hub: Address::from_bytes(Vec::new()),
            verifier_addr: Address::from_bytes(Vec::new()),
            vk: Vec::new(),
            game_id: 0,
            initialized: false,
            ended: false,
        };
        proof {
            assert(g@ =~~= GameView::uninit());
        }
        g
    }

    /// Rebuilds an initialized record exactly as a persistence layer
    /// handed it back. Storage mechanics stay with the caller; this
    /// crate owns what the record means.
    pub fn from_record(
        admin: Address,
        player2: Address,
        name_commit: Vec<u8>,
        game_hub: Address,
        verifier_addr: Address,
        vk: Vec<u8>,
        game_id: u32,
        ended: bool,
    ) -> (g: ChihiroGame)
        requires
            name_commit@.len() == 32,
        ensures
            g@ == (GameView {
                admin: admin@,
                player2: player2@,
                name_commit: name_commit@,
                game_hub: game_hub@,
                verifier_addr: verifier_addr@,
                vk: vk@,
                game_id: game_id,
                initialized: true,
                ended: ended,
            }),
    {
        ChihiroGame {
            admin,
            player2,
            name_commit,
            game_hub,
            verifier_addr,
            vk,
            game_id,
            initialized: true,
            ended,
        }
    }

    /// The admin sets up the contest: stores the commitment and the
    /// collaborator configuration, derives the session identifier from
    /// the current ledger sequence, and registers the session with the
    /// hub. A second call is rejected with `AlreadyInitialized` and
    /// changes nothing. Authorization of the admin is the host's step,
    /// taken before this one.
    pub fn initialize<H: GameHub>(
        &mut self,
        admin: Address,
        player2: Address,
        name_commit: Vec<u8>,
        game_hub: Address,
        verifier_addr: Address,
        vk: Vec<u8>,
        game_address: &Address,
        ledger_sequence: u32,
        hub: &mut H,
    ) -> (r: Result<(), Error>)
        requires
            name_commit@.len() == 32,
        ensures
            ({
                let (s2, res) = spec_initialize(
                    old(self)@,
                    (InitArgs {
                        admin: admin@,
                        player2: player2@,
                        name_commit: name_commit@,
                        game_hub: game_hub@,
                        verifier_addr: verifier_addr@,
                        vk: vk@,
                        ledger_sequence: ledger_sequence,
                    }),
                );
                final(self)@ == s2 && r == res
            }),
    {
        if self.initialized {
            return Err(Error::AlreadyInitialized);
        }
        hub.start_game(game_address, ledger_sequence, &admin, &player2, 0i128, 0i128);
        *self = ChihiroGame {
            admin,
            player2,
            name_commit,
            game_hub,
            verifier_addr,
            vk,
            game_id: ledger_sequence,
            initialized: true,
            ended: false,
        };
        Ok(())
    }

    /// The caller guards of a recovery attempt, in their fixed order.
    /// The host runs this before asking the caller for authorization,
    /// so that a wrong caller is told `NotPlayer2` even unsigned.
    pub fn check_recover_caller(&self, player: &Address) -> (r: Result<(), Error>)
        ensures
            r == spec_recover_caller_guard(self@, player@),
    {
        if !self.initialized {
            Err(Error::NotInitialized)
        } else if self.ended {
            Err(Error::AlreadyEnded)
        } else if !bytes_eq(player.as_bytes(), self.player2.as_bytes()) {
            Err(Error::NotPlayer2)
        } else {
            Ok(())
        }
    }

    /// True when the submitted public inputs answer the stored
    /// commitment: exactly one value, equal to it.
    fn matches_commitment(&self, public_inputs: &Vec<Vec<u8>>) -> (r: bool)
        ensures
            r == inputs_match(self@, public_inputs.deep_view()),
    {
        if public_inputs.len() != 1 {
            return false;
        }
        let r = bytes_eq(&public_inputs[0], &self.name_commit);
        proof {
            assert(public_inputs.deep_view()[0] =~= public_inputs@[0]@);
        }
        r
    }

    /// Applies the recovery transition once the verifier has answered:
    /// the guards in their fixed order, then, only on a valid proof,
    /// the one-way flip of the terminal flag. Notifying the session
    /// registry of the win is the caller's step, taken before the flip.
    pub fn recover_name_with_answer(
        &mut self,
        player: &Address,
        public_inputs: &Vec<Vec<u8>>,
        proof_valid: bool,
    ) -> (r: Result<bool, Error>)
        ensures
            ({
                let (s2, res) = spec_recover(
                    old(self)@,
                    (RecoverArgs { player: player@, public_inputs: public_inputs.deep_view() }),
                    proof_valid,
                );
                final(self)@ == s2 && r == res
            }),
    {
        match self.check_recover_caller(player) {
            Err(e) => Err(e),
            Ok(()) => {
                if !self.matches_commitment(public_inputs) {
                    Err(Error::WrongPublicInput)
                } else if !proof_valid {
                    Err(Error::ProofInvalid)
                } else {
                    proof {
                        use_type_invariant(&*self);
                    }
                    self.ended = true;
                    proof {
                        assert(self@ =~~= old(self)@.with_ended());
                    }
                    Ok(true)
                }
            },
        }
    }

    /// The challenger recovers the name by submitting a proof. The
    /// guards run in a fixed order — record present, contest not over,
    /// caller is the stored challenger, public inputs equal to the
    /// stored commitment — before the verifier is consulted, so a
    /// malformed or unauthorized call never reaches it. On a valid
    /// proof the hub is told the challenger won, the terminal flag
    /// flips, and `true` comes back. Authorization of the caller is the
    /// host's step, taken after `check_recover_caller` and before this.
    pub fn recover_name<V: UltraHonkVerifier, H: GameHub>(
        &mut self,
        player: &Address,
        proof: &Vec<u8>,
        public_inputs: &Vec<Vec<u8>>,
        verifier_client: &mut V,
        hub: &mut H,
    ) -> (r: Result<bool, Error>)
        ensures
            !old(self)@.initialized ==> r == Err::<bool, Error>(Error::NotInitialized)
                && final(self)@ == old(self)@,
            old(self)@.initialized && old(self)@.ended ==> r == Err::<bool, Error>(
                Error::AlreadyEnded,
            ) && final(self)@ == old(self)@,
            old(self)@.initialized && !old(self)@.ended && player@ != old(self)@.player2 ==> r
                == Err::<bool, Error>(Error::NotPlayer2) && final(self)@ == old(self)@,
            old(self)@.initialized && !old(self)@.ended && player@ == old(self)@.player2
                && !inputs_match(old(self)@, public_inputs.deep_view()) ==> r == Err::<
                bool,
                Error,
            >(Error::WrongPublicInput) && final(self)@ == old(self)@,
            old(self)@.initialized && !old(self)@.ended && player@ == old(self)@.player2
                && inputs_match(old(self)@, public_inputs.deep_view()) ==> (r == Ok::<bool, Error>(
                true,
            ) && final(self)@ == old(self)@.with_ended()) || (r == Err::<bool, Error>(
                Error::ProofInvalid,
            ) && final(self)@ == old(self)@),
    {
        match self.check_recover_caller(player) {
            Err(e) => return Err(e),
            Ok(()) => {},
        }
        if !self.matches_commitment(public_inputs) {
            return Err(Error::WrongPublicInput);
        }
        let valid = verifier_client.verify(proof, public_inputs, &self.vk);
        if valid {
            hub.end_game(self.game_id, true);
        }
        self.recover_name_with_answer(player, public_inputs, valid)
    }

    /// The stored commitment; `NotInitialized` before setup.
    pub fn get_name_commit(&self) -> (r: Result<Vec<u8>, Error>)
        ensures
            self@.initialized ==> (r matches Ok(c) && c@ == self@.name_commit),
            !self@.initialized ==> r == Err::<Vec<u8>, Error>(Error::NotInitialized),
    {
        if !self.initialized {
            Err(Error::NotInitialized)
        } else {
            Ok(copy_bytes(&self.name_commit))
        }
    }

    /// The session identifier, the initialized flag and the terminal
    /// flag, tolerant of the record being absent: before setup it is
    /// `(0, false, false)`. Never fails, never mutates.
    pub fn get_game_status(&self) -> (r: (u32, bool, bool))
        ensures
            r == (self@.game_id, self@.initialized, self@.ended),
            !self@.initialized ==> r == (0u32, false, false),
    {
        proof {
            use_type_invariant(&*self);
        }
        (self.game_id, self.initialized, self.ended)
    }

    /// The two stored identities, admin first; `NotInitialized` before
    /// setup.
    pub fn get_players(&self) -> (r: Result<(Address, Address), Error>)
        ensures
            self@.initialized ==> (r matches Ok(p) && p.0@ == self@.admin && p.1@
                == self@.player2),
            !self@.initialized ==> (r matches Err(e) && e == Error::NotInitialized),
    {
        if !self.initialized {
            Err(Error::NotInitialized)
        } else {
            Ok((self.admin.duplicate(), self.player2.duplicate()))
        }
    }
}

} // verus!
