//! Laws of the contest state machine, stated over the transition spec
//! functions and proved once for every state and every input.

use vstd::prelude::*;

use crate::state::Error;
use crate::state::GameView;
use crate::state::InitArgs;
use crate::state::RecoverArgs;
use crate::state::inputs_match;
use crate::state::init_view;
use crate::state::spec_initialize;
use crate::state::spec_recover;

verus! {

/// Setup happens at most once: after a successful initialization, a
/// second one — with any arguments — fails `AlreadyInitialized` and
/// leaves the record exactly as the first call wrote it.
pub proof fn lemma_initialize_at_most_once(s: GameView, a1: InitArgs, a2: InitArgs)
    requires
        !s.initialized,
    ensures
        ({
            let (s1, r1) = spec_initialize(s, a1);
            r1 == Ok::<(), Error>(()) && spec_initialize(s1, a2) == (
                s1,
                Err::<(), Error>(Error::AlreadyInitialized),
            )
        }),
{
    assert(init_view(a1).initialized);
}

/// In an initialized, non-ended instance a caller other than the stored
/// challenger is rejected with `NotPlayer2`, whatever the public inputs
/// hold and whatever the verifier would have said; the record does not
/// change.
pub proof fn lemma_wrong_caller_rejected(s: GameView, a: RecoverArgs, proof_valid: bool)
    requires
        s.initialized,
        !s.ended,
        a.player != s.player2,
    ensures
        spec_recover(s, a, proof_valid) == (s, Err::<bool, Error>(Error::NotPlayer2)),
{
}

/// In an initialized, non-ended instance the correct challenger is
/// rejected with `WrongPublicInput` whenever the public inputs are not
/// exactly the stored commitment — wrong count or wrong value — and the
/// answer argument is irrelevant: the verifier has nothing to decide.
/// The record does not change.
pub proof fn lemma_wrong_input_rejected(s: GameView, a: RecoverArgs, proof_valid: bool)
    requires
        s.initialized,
        !s.ended,
        a.player == s.player2,
        !inputs_match(s, a.public_inputs),
    ensures
        spec_recover(s, a, proof_valid) == (s, Err::<bool, Error>(Error::WrongPublicInput)),
{
}

/// In an initialized, non-ended instance the correct challenger with
/// the correct public inputs is rejected with `ProofInvalid` when the
/// verifier says no; the record does not change and the contest stays
/// open.
pub proof fn lemma_invalid_proof_rejected(s: GameView, a: RecoverArgs)
    requires
        s.initialized,
        !s.ended,
        a.player == s.player2,
        inputs_match(s, a.public_inputs),
    ensures
        spec_recover(s, a, false) == (s, Err::<bool, Error>(Error::ProofInvalid)),
{
}

/// The winning transition is the only one that changes the record, and
/// it changes exactly the terminal flag: every other field of the
/// resulting record equals the old one.
pub proof fn lemma_win_flips_only_ended(s: GameView, a: RecoverArgs)
    requires
        s.initialized,
        !s.ended,
        a.player == s.player2,
        inputs_match(s, a.public_inputs),
    ensures
        ({
            let (s2, r) = spec_recover(s, a, true);
            r == Ok::<bool, Error>(true) && s2.ended && s2 == (GameView { ended: true, ..s })
        }),
{
}

/// The ended state is terminal: once the terminal flag is set, every
/// recovery attempt — any caller, any inputs, any answer — fails
/// `AlreadyEnded` and nothing changes.
pub proof fn lemma_ended_is_terminal(s: GameView, a: RecoverArgs, proof_valid: bool)
    requires
        s.initialized,
        s.ended,
    ensures
        spec_recover(s, a, proof_valid) == (s, Err::<bool, Error>(Error::AlreadyEnded)),
{
}

/// A recovery attempt on an instance that was never initialized fails
/// `NotInitialized` and nothing changes.
pub proof fn lemma_recover_needs_init(s: GameView, a: RecoverArgs, proof_valid: bool)
    requires
        !s.initialized,
    ensures
        spec_recover(s, a, proof_valid) == (s, Err::<bool, Error>(Error::NotInitialized)),
{
}

} // verus!
