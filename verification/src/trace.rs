//! Whole-run properties of the mint-and-transfer machine.
//!
//! [`run_from`] folds [`spec_step`] over a sequence of events and collects
//! the actions the machine asks for; [`run`] does so from the initial
//! state. The proof functions here state the orchestration-sequence laws:
//! what a successful run looks like action by action, that the services are
//! started exactly once and before any wallet operation, that they are
//! stopped only after a successful transfer, that at most one asset is
//! issued and at most one transfer submitted, and that a missing NFT media
//! file fails the run before any issuance.

use vstd::prelude::*;

use crate::cli::Commands;
use crate::orchestrator::{initial_state, spec_step, Action, Event, Orchestrator, Phase};
use crate::UTXO_SET_SIZE;

verus! {

/// Folds the machine over `events[i..]` starting in state `o`: the final
/// state and the actions emitted, one per event.
pub open spec fn run_from(o: Orchestrator, events: Seq<Event>, i: nat) -> (Orchestrator, Seq<
    Action>)
    decreases events.len() - i,
{
    if i >= events.len() {
        (o, Seq::empty())
    } else {
        let next = spec_step(o, events[i as int]);
        let rest = run_from(next.0, events, (i + 1) as nat);
        (rest.0, seq![next.1] + rest.1)
    }
}

/// The whole run of a command: the machine starts in its initial state and
/// consumes every event the binary reports.
pub open spec fn run(command: Commands, events: Seq<Event>) -> (Orchestrator, Seq<Action>) {
    run_from(initial_state(command), events, 0)
}

/// A run answers every event with exactly one action.
pub proof fn lemma_run_from_len(o: Orchestrator, events: Seq<Event>, i: nat)
    requires
        i <= events.len(),
    ensures
        run_from(o, events, i).1.len() == events.len() - i,
    decreases events.len() - i,
{
    if i < events.len() {
        let next = spec_step(o, events[i as int]);
        lemma_run_from_len(next.0, events, (i + 1) as nat);
    }
}

/// Failure is absorbing: once the machine has failed, every further event
/// is answered with the failure exit and the machine stays failed.
pub proof fn lemma_failed_absorbing(o: Orchestrator, events: Seq<Event>, i: nat)
    requires
        o.phase is Failed,
    ensures
        run_from(o, events, i).0.phase is Failed,
        forall|k: int|
            0 <= k < run_from(o, events, i).1.len() ==> run_from(o, events, i).1[k] == (
            Action::Fail { code: 1u8 }),
    decreases events.len() - i,
{
    if i < events.len() {
        let next = spec_step(o, events[i as int]);
        assert(next.0.phase is Failed);
        assert(next.1 == (Action::Fail { code: 1u8 }));
        lemma_failed_absorbing(next.0, events, (i + 1) as nat);
    }
}

/// The position of a phase along the linear sequence. A transition never
/// lowers the rank, and only the two terminal phases keep it, so no earlier
/// phase is ever revisited.
pub open spec fn phase_rank(p: Phase) -> nat {
    match p {
        Phase::Init => 0,
        Phase::Starting => 1,
        Phase::PreparingWallet => 2,
        Phase::Funding => 3,
        Phase::MiningFunding => 4,
        Phase::CreatingUtxos => 5,
        Phase::CheckingFile => 6,
        Phase::Issuing => 7,
        Phase::ListingAssets => 8,
        Phase::Sending => 9,
        Phase::MiningTransfer => 10,
        Phase::Stopping => 11,
        Phase::Done => 12,
        Phase::Failed => 13,
    }
}

/// An issuance request, of either asset kind.
pub open spec fn is_issue_action(a: Action) -> bool {
    a is IssueNft || a is IssueFungible
}

/// An operation on the wallet: everything between starting and stopping the
/// services that touches the wallet library.
pub open spec fn is_wallet_action(a: Action) -> bool {
    ||| a is SetupWallet
    ||| a is FundWallet
    ||| a is CreateUtxos
    ||| is_issue_action(a)
    ||| a is ListAssets
    ||| a is Send
}

/// One step never lowers the rank, and each externally visible action is
/// emitted from exactly one place in the sequence.
pub proof fn lemma_step_facts(o: Orchestrator, event: Event)
    ensures
        phase_rank(spec_step(o, event).0.phase) >= phase_rank(o.phase),
        spec_step(o, event).1 is StartServices ==> o.phase is Init && phase_rank(
            spec_step(o, event).0.phase,
        ) > 0,
        is_issue_action(spec_step(o, event).1) ==> phase_rank(o.phase) <= 6 && phase_rank(
            spec_step(o, event).0.phase,
        ) > 6,
        spec_step(o, event).1 is Send ==> phase_rank(o.phase) <= 8 && phase_rank(
            spec_step(o, event).0.phase,
        ) > 8,
        spec_step(o, event).1 is StopServices ==> o.phase is MiningTransfer && phase_rank(
            spec_step(o, event).0.phase,
        ) > 10,
        !(spec_step(o, event).0.phase is Init),
        spec_step(o, event).1 is Mine ==> (event is Funded || event is Sent),
        spec_step(o, event).1 is Mine && event is Funded ==> o.phase is Funding && phase_rank(
            spec_step(o, event).0.phase,
        ) > 3,
        spec_step(o, event).1 is Mine && event is Sent ==> o.phase is Sending && phase_rank(
            spec_step(o, event).0.phase,
        ) > 9,
{
}

/// From any state past issuance, no further issuance is ever requested.
pub proof fn lemma_no_issue_past_rank(o: Orchestrator, events: Seq<Event>, i: nat)
    requires
        phase_rank(o.phase) > 6,
    ensures
        forall|k: int|
            0 <= k < run_from(o, events, i).1.len() ==> !is_issue_action(
                #[trigger] run_from(o, events, i).1[k],
            ),
    decreases events.len() - i,
{
    if i < events.len() {
        let next = spec_step(o, events[i as int]);
        lemma_step_facts(o, events[i as int]);
        lemma_no_issue_past_rank(next.0, events, (i + 1) as nat);
        let r = run_from(o, events, i);
        let rest = run_from(next.0, events, (i + 1) as nat);
        assert forall|k: int| 0 <= k < r.1.len() implies !is_issue_action(r.1[k]) by {
            if k == 0 {
                assert(r.1[0] == next.1);
            } else {
                assert(r.1[k] == rest.1[k - 1]);
                assert(!is_issue_action(rest.1[k - 1]));
            }
        }
    }
}

/// At most one issuance is requested in any run, from any state and for any
/// events whatsoever.
pub proof fn lemma_issue_at_most_once(o: Orchestrator, events: Seq<Event>, i: nat)
    ensures
        forall|k1: int, k2: int|
            0 <= k1 < run_from(o, events, i).1.len() && 0 <= k2 < run_from(o, events, i).1.len()
                && is_issue_action(#[trigger] run_from(o, events, i).1[k1]) && is_issue_action(
                #[trigger] run_from(o, events, i).1[k2],
            ) ==> k1 == k2,
    decreases events.len() - i,
{
    if i < events.len() {
        let next = spec_step(o, events[i as int]);
        lemma_step_facts(o, events[i as int]);
        let r = run_from(o, events, i);
        let rest = run_from(next.0, events, (i + 1) as nat);
        if is_issue_action(next.1) {
            lemma_no_issue_past_rank(next.0, events, (i + 1) as nat);
            assert forall|k1: int, k2: int|
                0 <= k1 < r.1.len() && 0 <= k2 < r.1.len() && is_issue_action(r.1[k1])
                    && is_issue_action(r.1[k2]) implies k1 == k2 by {
                if k1 > 0 {
                    assert(r.1[k1] == rest.1[k1 - 1]);
                    assert(!is_issue_action(rest.1[k1 - 1]));
                }
                if k2 > 0 {
                    assert(r.1[k2] == rest.1[k2 - 1]);
                    assert(!is_issue_action(rest.1[k2 - 1]));
                }
            }
        } else {
            lemma_issue_at_most_once(next.0, events, (i + 1) as nat);
            assert forall|k1: int, k2: int|
                0 <= k1 < r.1.len() && 0 <= k2 < r.1.len() && is_issue_action(r.1[k1])
                    && is_issue_action(r.1[k2]) implies k1 == k2 by {
                assert(r.1[0] == next.1);
                if k1 > 0 && k2 > 0 {
                    assert(r.1[k1] == rest.1[k1 - 1]);
                    assert(r.1[k2] == rest.1[k2 - 1]);
                }
            }
        }
    }
}

/// From any state past the transfer decision, no further transfer is ever
/// requested.
pub proof fn lemma_no_send_past_rank(o: Orchestrator, events: Seq<Event>, i: nat)
    requires
        phase_rank(o.phase) > 8,
    ensures
        forall|k: int|
            0 <= k < run_from(o, events, i).1.len() ==> !((
            #[trigger] run_from(o, events, i).1[k]) is Send),
    decreases events.len() - i,
{
    if i < events.len() {
        let next = spec_step(o, events[i as int]);
        lemma_step_facts(o, events[i as int]);
        lemma_no_send_past_rank(next.0, events, (i + 1) as nat);
    }
}

/// At most one transfer is requested in any run.
pub proof fn lemma_send_at_most_once(o: Orchestrator, events: Seq<Event>, i: nat)
    ensures
        forall|k1: int, k2: int|
            0 <= k1 < run_from(o, events, i).1.len() && 0 <= k2 < run_from(o, events, i).1.len()
                && (#[trigger] run_from(o, events, i).1[k1]) is Send && (
            #[trigger] run_from(o, events, i).1[k2]) is Send ==> k1 == k2,
    decreases events.len() - i,
{
    if i < events.len() {
        let next = spec_step(o, events[i as int]);
        lemma_step_facts(o, events[i as int]);
        if next.1 is Send {
            lemma_no_send_past_rank(next.0, events, (i + 1) as nat);
        } else {
            lemma_send_at_most_once(next.0, events, (i + 1) as nat);
        }
    }
}

/// From any state but the initial one, the services are never started
/// again.
pub proof fn lemma_no_start_past_init(o: Orchestrator, events: Seq<Event>, i: nat)
    requires
        !(o.phase is Init),
    ensures
        forall|k: int|
            0 <= k < run_from(o, events, i).1.len() ==> !((
            #[trigger] run_from(o, events, i).1[k]) is StartServices),
    decreases events.len() - i,
{
    if i < events.len() {
        let next = spec_step(o, events[i as int]);
        lemma_step_facts(o, events[i as int]);
        lemma_no_start_past_init(next.0, events, (i + 1) as nat);
    }
}

/// In any whole run the services are started at most once, and only as the
/// very first action; and no wallet operation is ever requested unless the
/// run's first action was starting the services.
pub proof fn lemma_start_once_and_first(command: Commands, events: Seq<Event>)
    ensures
        forall|k: int|
            0 < k < run(command, events).1.len() ==> !((
            #[trigger] run(command, events).1[k]) is StartServices),
        forall|k: int|
            0 <= k < run(command, events).1.len() && is_wallet_action(
                #[trigger] run(command, events).1[k],
            ) ==> 0 < k && run(command, events).1[0] is StartServices,
{
    let o = initial_state(command);
    if events.len() > 0 {
        let next = spec_step(o, events[0]);
        lemma_step_facts(o, events[0]);
        lemma_no_start_past_init(next.0, events, 1);
        if !(events[0] is Begin) {
            assert(next.0.phase is Failed);
            lemma_failed_absorbing(next.0, events, 1);
        }
    }
}

/// Every mining request answers either the funding of the wallet or the
/// submitted transfer: blocks are mined at no other point of any run.
pub proof fn lemma_mine_answers_funding_or_transfer(o: Orchestrator, events: Seq<Event>, i: nat)
    ensures
        forall|k: int|
            0 <= k < run_from(o, events, i).1.len() && (#[trigger] run_from(o, events, i).1[k])
                is Mine ==> (events[i + k] is Funded || events[i + k] is Sent),
    decreases events.len() - i,
{
    if i < events.len() {
        let next = spec_step(o, events[i as int]);
        lemma_step_facts(o, events[i as int]);
        lemma_mine_answers_funding_or_transfer(next.0, events, (i + 1) as nat);
        let r = run_from(o, events, i);
        let rest = run_from(next.0, events, (i + 1) as nat);
        assert forall|k: int|
            0 <= k < r.1.len() && (#[trigger] r.1[k]) is Mine implies (events[i + k] is Funded
            || events[i + k] is Sent) by {
            if k > 0 {
                assert(r.1[k] == rest.1[k - 1]);
            }
        }
    }
}

/// From any state past the funding, no mining request ever again answers a
/// funding event.
pub proof fn lemma_no_funding_mine_past_rank(o: Orchestrator, events: Seq<Event>, i: nat)
    requires
        phase_rank(o.phase) > 3,
    ensures
        forall|k: int|
            0 <= k < run_from(o, events, i).1.len() ==> !((#[trigger] run_from(o, events, i).1[k])
                is Mine && events[i + k] is Funded),
    decreases events.len() - i,
{
    if i < events.len() {
        let next = spec_step(o, events[i as int]);
        lemma_step_facts(o, events[i as int]);
        lemma_no_funding_mine_past_rank(next.0, events, (i + 1) as nat);
        let r = run_from(o, events, i);
        let rest = run_from(next.0, events, (i + 1) as nat);
        assert forall|k: int|
            0 <= k < r.1.len() implies !((#[trigger] r.1[k]) is Mine && events[i + k]
            is Funded) by {
            if k > 0 {
                assert(r.1[k] == rest.1[k - 1]);
            }
        }
    }
}

/// At most one mining request of any run answers the funding of the wallet.
pub proof fn lemma_funding_mine_at_most_once(o: Orchestrator, events: Seq<Event>, i: nat)
    ensures
        forall|k1: int, k2: int|
            0 <= k1 < run_from(o, events, i).1.len() && 0 <= k2 < run_from(o, events, i).1.len()
                && ((#[trigger] run_from(o, events, i).1[k1]) is Mine && events[i + k1] is Funded)
                && ((#[trigger] run_from(o, events, i).1[k2]) is Mine && events[i + k2]
                is Funded) ==> k1 == k2,
    decreases events.len() - i,
{
    if i < events.len() {
        let next = spec_step(o, events[i as int]);
        lemma_step_facts(o, events[i as int]);
        let r = run_from(o, events, i);
        let rest = run_from(next.0, events, (i + 1) as nat);
        if next.1 is Mine && events[i as int] is Funded {
            lemma_no_funding_mine_past_rank(next.0, events, (i + 1) as nat);
            assert forall|k1: int, k2: int|
                0 <= k1 < r.1.len() && 0 <= k2 < r.1.len() && (r.1[k1] is Mine && events[i + k1]
                    is Funded) && (r.1[k2] is Mine && events[i + k2] is Funded) implies k1
                == k2 by {
                if k1 > 0 {
                    assert(r.1[k1] == rest.1[k1 - 1]);
                }
                if k2 > 0 {
                    assert(r.1[k2] == rest.1[k2 - 1]);
                }
            }
        } else {
            lemma_funding_mine_at_most_once(next.0, events, (i + 1) as nat);
            assert forall|k1: int, k2: int|
                0 <= k1 < r.1.len() && 0 <= k2 < r.1.len() && (r.1[k1] is Mine && events[i + k1]
                    is Funded) && (r.1[k2] is Mine && events[i + k2] is Funded) implies k1
                == k2 by {
                assert(r.1[0] == next.1);
                if k1 > 0 && k2 > 0 {
                    assert(r.1[k1] == rest.1[k1 - 1]);
                    assert(r.1[k2] == rest.1[k2 - 1]);
                }
            }
        }
    }
}

/// From any state past the transfer, no mining request ever again answers a
/// transfer event.
pub proof fn lemma_no_transfer_mine_past_rank(o: Orchestrator, events: Seq<Event>, i: nat)
    requires
        phase_rank(o.phase) > 9,
    ensures
        forall|k: int|
            0 <= k < run_from(o, events, i).1.len() ==> !((#[trigger] run_from(o, events, i).1[k])
                is Mine && events[i + k] is Sent),
    decreases events.len() - i,
{
    if i < events.len() {
        let next = spec_step(o, events[i as int]);
        lemma_step_facts(o, events[i as int]);
        lemma_no_transfer_mine_past_rank(next.0, events, (i + 1) as nat);
        let r = run_from(o, events, i);
        let rest = run_from(next.0, events, (i + 1) as nat);
        assert forall|k: int|
            0 <= k < r.1.len() implies !((#[trigger] r.1[k]) is Mine && events[i + k]
            is Sent) by {
            if k > 0 {
                assert(r.1[k] == rest.1[k - 1]);
            }
        }
    }
}

/// At most one mining request of any run answers the transfer.
pub proof fn lemma_transfer_mine_at_most_once(o: Orchestrator, events: Seq<Event>, i: nat)
    ensures
        forall|k1: int, k2: int|
            0 <= k1 < run_from(o, events, i).1.len() && 0 <= k2 < run_from(o, events, i).1.len()
                && ((#[trigger] run_from(o, events, i).1[k1]) is Mine && events[i + k1] is Sent)
                && ((#[trigger] run_from(o, events, i).1[k2]) is Mine && events[i + k2]
                is Sent) ==> k1 == k2,
    decreases events.len() - i,
{
    if i < events.len() {
        let next = spec_step(o, events[i as int]);
        lemma_step_facts(o, events[i as int]);
        let r = run_from(o, events, i);
        let rest = run_from(next.0, events, (i + 1) as nat);
        if next.1 is Mine && events[i as int] is Sent {
            lemma_no_transfer_mine_past_rank(next.0, events, (i + 1) as nat);
            assert forall|k1: int, k2: int|
                0 <= k1 < r.1.len() && 0 <= k2 < r.1.len() && (r.1[k1] is Mine && events[i + k1]
                    is Sent) && (r.1[k2] is Mine && events[i + k2] is Sent) implies k1 == k2 by {
                if k1 > 0 {
                    assert(r.1[k1] == rest.1[k1 - 1]);
                }
                if k2 > 0 {
                    assert(r.1[k2] == rest.1[k2 - 1]);
                }
            }
        } else {
            lemma_transfer_mine_at_most_once(next.0, events, (i + 1) as nat);
            assert forall|k1: int, k2: int|
                0 <= k1 < r.1.len() && 0 <= k2 < r.1.len() && (r.1[k1] is Mine && events[i + k1]
                    is Sent) && (r.1[k2] is Mine && events[i + k2] is Sent) implies k1 == k2 by {
                assert(r.1[0] == next.1);
                if k1 > 0 && k2 > 0 {
                    assert(r.1[k1] == rest.1[k1 - 1]);
                    assert(r.1[k2] == rest.1[k2 - 1]);
                }
            }
        }
    }
}

/// From any state past the confirmation mining, the services are never
/// stopped again.
pub proof fn lemma_no_stop_past_rank(o: Orchestrator, events: Seq<Event>, i: nat)
    requires
        phase_rank(o.phase) > 10,
    ensures
        forall|k: int|
            0 <= k < run_from(o, events, i).1.len() ==> !((
            #[trigger] run_from(o, events, i).1[k]) is StopServices),
    decreases events.len() - i,
{
    if i < events.len() {
        let next = spec_step(o, events[i as int]);
        lemma_step_facts(o, events[i as int]);
        lemma_no_stop_past_rank(next.0, events, (i + 1) as nat);
    }
}

/// The services are stopped at most once in any run.
pub proof fn lemma_stop_at_most_once(o: Orchestrator, events: Seq<Event>, i: nat)
    ensures
        forall|k1: int, k2: int|
            0 <= k1 < run_from(o, events, i).1.len() && 0 <= k2 < run_from(o, events, i).1.len()
                && (#[trigger] run_from(o, events, i).1[k1]) is StopServices && (
            #[trigger] run_from(o, events, i).1[k2]) is StopServices ==> k1 == k2,
    decreases events.len() - i,
{
    if i < events.len() {
        let next = spec_step(o, events[i as int]);
        lemma_step_facts(o, events[i as int]);
        let r = run_from(o, events, i);
        let rest = run_from(next.0, events, (i + 1) as nat);
        if next.1 is StopServices {
            lemma_no_stop_past_rank(next.0, events, (i + 1) as nat);
            assert forall|k1: int, k2: int|
                0 <= k1 < r.1.len() && 0 <= k2 < r.1.len() && r.1[k1] is StopServices && r.1[k2]
                    is StopServices implies k1 == k2 by {
                if k1 > 0 {
                    assert(r.1[k1] == rest.1[k1 - 1]);
                }
                if k2 > 0 {
                    assert(r.1[k2] == rest.1[k2 - 1]);
                }
            }
        } else {
            lemma_stop_at_most_once(next.0, events, (i + 1) as nat);
            assert forall|k1: int, k2: int|
                0 <= k1 < r.1.len() && 0 <= k2 < r.1.len() && r.1[k1] is StopServices && r.1[k2]
                    is StopServices implies k1 == k2 by {
                assert(r.1[0] == next.1);
                if k1 > 0 && k2 > 0 {
                    assert(r.1[k1] == rest.1[k1 - 1]);
                    assert(r.1[k2] == rest.1[k2 - 1]);
                }
            }
        }
    }
}

/// The phases that lie past a successful transfer.
pub open spec fn post_send_phase(p: Phase) -> bool {
    p is MiningTransfer || p is Stopping || p is Done
}

/// From any state not past a successful transfer, the services are stopped
/// only after an event reported a successful transfer: stopping "only
/// then".
pub proof fn lemma_stop_only_after_sent(o: Orchestrator, events: Seq<Event>, i: nat)
    requires
        !post_send_phase(o.phase),
    ensures
        forall|k: int|
            0 <= k < run_from(o, events, i).1.len() && (
            #[trigger] run_from(o, events, i).1[k]) is StopServices ==> exists|j: int|
                i <= j < i + k && (#[trigger] events[j]) is Sent,
    decreases events.len() - i,
{
    if i < events.len() {
        let e = events[i as int];
        let next = spec_step(o, e);
        lemma_step_facts(o, e);
        if o.phase is Sending && e is Sent {
            // every later index has the transfer event at `i` before it
            assert forall|k: int|
                0 <= k < run_from(o, events, i).1.len() && (
                #[trigger] run_from(o, events, i).1[k]) is StopServices implies exists|j: int|
                i <= j < i + k && (#[trigger] events[j]) is Sent by {
                assert(!(run_from(o, events, i).1[0] is StopServices));
                assert(events[i as int] is Sent);
            }
        } else {
            assert(!post_send_phase(next.0.phase));
            lemma_stop_only_after_sent(next.0, events, (i + 1) as nat);
        }
    }
}

/// The events of a fully successful fungible-mint run, in order: one event
/// answering each action of the machine.
pub open spec fn fungible_success_events(events: Seq<Event>) -> bool {
    &&& events.len() == 11
    &&& events[0] is Begin
    &&& events[1] is Started
    &&& events[2] is WalletReady
    &&& events[3] is Funded
    &&& events[4] is Mined
    &&& events[5] is UtxosCreated
    &&& events[6] is Issued
    &&& events[7] is AssetsListed
    &&& events[8] is Sent
    &&& events[9] is Mined
    &&& events[10] is Stopped
}

/// The actions of a fully successful fungible-mint run.
pub open spec fn fungible_success_actions(
    events: Seq<Event>,
    ticker: String,
    name: String,
    amount: u64,
    blinded_utxo: String,
) -> Seq<Action> {
    seq![
        Action::StartServices,
        Action::SetupWallet,
        Action::FundWallet { address: events[2]->address },
        Action::Mine,
        Action::CreateUtxos { count: UTXO_SET_SIZE },
        Action::IssueFungible { ticker, name, amount },
        Action::ListAssets,
        Action::Send { asset_id: events[6]->asset_id, amount, blinded_utxo },
        Action::Mine,
        Action::StopServices,
        Action::Finish,
    ]
}

/// A successful fungible-mint run performs exactly the canonical action
/// sequence: the services are started first and exactly once, exactly one
/// asset of the requested amount is issued, exactly one transfer of that
/// asset and amount to the requested blinded UTXO is submitted, exactly one
/// block is mined after the funding and one after the transfer, and the
/// services are stopped exactly once, after the transfer.
pub proof fn lemma_fungible_success_run(
    name: String,
    ticker: String,
    amount: u64,
    blinded_utxo: String,
    events: Seq<Event>,
)
    requires
        fungible_success_events(events),
    ensures
        ({
            let cmd = Commands::MintRGB20 { name, ticker, amount, blinded_utxo };
            let end = run(cmd, events).0;
            let actions = run(cmd, events).1;
            &&& end.phase is Done
            &&& end.asset_id == Some(events[6]->asset_id)
            &&& actions =~= fungible_success_actions(events, ticker, name, amount, blinded_utxo)
            &&& forall|k: int|
                0 <= k < actions.len() ==> (((#[trigger] actions[k]) is StartServices) <==> k == 0)
            &&& forall|k: int|
                0 <= k < actions.len() ==> (((#[trigger] actions[k]) is Mine) <==> (k == 3 || k
                    == 8))
            &&& forall|k: int|
                0 <= k < actions.len() ==> (((#[trigger] actions[k]) is StopServices) <==> k == 9)
            &&& forall|k: int|
                0 <= k < actions.len() ==> (is_issue_action(#[trigger] actions[k]) <==> k == 5)
            &&& forall|k: int|
                0 <= k < actions.len() ==> (((#[trigger] actions[k]) is Send) <==> k == 7)
        }),
{
    let cmd = Commands::MintRGB20 { name, ticker, amount, blinded_utxo };
    let s0 = initial_state(cmd);
    let n0 = spec_step(s0, events[0]);
    let n1 = spec_step(n0.0, events[1]);
    let n2 = spec_step(n1.0, events[2]);
    let n3 = spec_step(n2.0, events[3]);
    let n4 = spec_step(n3.0, events[4]);
    let n5 = spec_step(n4.0, events[5]);
    let n6 = spec_step(n5.0, events[6]);
    let n7 = spec_step(n6.0, events[7]);
    let n8 = spec_step(n7.0, events[8]);
    let n9 = spec_step(n8.0, events[9]);
    let n10 = spec_step(n9.0, events[10]);
    assert(n0.1 == Action::StartServices);
    assert(n1.1 == Action::SetupWallet);
    assert(n2.1 == (Action::FundWallet { address: events[2]->address }));
    assert(n3.1 == Action::Mine);
    assert(n4.1 == (Action::CreateUtxos { count: UTXO_SET_SIZE }));
    assert(n5.1 == (Action::IssueFungible { ticker, name, amount }));
    assert(n6.1 == Action::ListAssets);
    assert(n7.1 == (Action::Send { asset_id: events[6]->asset_id, amount, blinded_utxo }));
    assert(n8.1 == Action::Mine);
    assert(n9.1 == Action::StopServices);
    assert(n10.1 == Action::Finish);
    assert(run_from(n10.0, events, 11).1 =~= Seq::<Action>::empty());
    assert(run_from(n9.0, events, 10).1 =~= seq![n10.1]);
    assert(run_from(n8.0, events, 9).1 =~= seq![n9.1, n10.1]);
    assert(run_from(n7.0, events, 8).1 =~= seq![n8.1, n9.1, n10.1]);
    assert(run_from(n6.0, events, 7).1 =~= seq![n7.1, n8.1, n9.1, n10.1]);
    assert(run_from(n5.0, events, 6).1 =~= seq![n6.1, n7.1, n8.1, n9.1, n10.1]);
    assert(run_from(n4.0, events, 5).1 =~= seq![n5.1, n6.1, n7.1, n8.1, n9.1, n10.1]);
    assert(run_from(n3.0, events, 4).1 =~= seq![n4.1, n5.1, n6.1, n7.1, n8.1, n9.1, n10.1]);
    assert(run_from(n2.0, events, 3).1 =~= seq![n3.1, n4.1, n5.1, n6.1, n7.1, n8.1, n9.1, n10.1]);
    assert(run_from(n1.0, events, 2).1 =~= seq![
        n2.1,
        n3.1,
        n4.1,
        n5.1,
        n6.1,
        n7.1,
        n8.1,
        n9.1,
        n10.1,
    ]);
    assert(run_from(n0.0, events, 1).1 =~= seq![
        n1.1,
        n2.1,
        n3.1,
        n4.1,
        n5.1,
        n6.1,
        n7.1,
        n8.1,
        n9.1,
        n10.1,
    ]);
    assert(run_from(s0, events, 0).1 =~= seq![
        n0.1,
        n1.1,
        n2.1,
        n3.1,
        n4.1,
        n5.1,
        n6.1,
        n7.1,
        n8.1,
        n9.1,
        n10.1,
    ]);
    assert(run(cmd, events).1 =~= fungible_success_actions(
        events,
        ticker,
        name,
        amount,
        blinded_utxo,
    ));
}

/// The events of a fully successful NFT-style run: as the fungible ones,
/// with the media-file check answered "it exists" before issuance.
pub open spec fn nft_success_events(events: Seq<Event>) -> bool {
    &&& events.len() == 12
    &&& events[0] is Begin
    &&& events[1] is Started
    &&& events[2] is WalletReady
    &&& events[3] is Funded
    &&& events[4] is Mined
    &&& events[5] is UtxosCreated
    &&& events[6] matches Event::FileChecked { exists } && exists
    &&& events[7] is Issued
    &&& events[8] is AssetsListed
    &&& events[9] is Sent
    &&& events[10] is Mined
    &&& events[11] is Stopped
}

/// The actions of a fully successful NFT-style run.
pub open spec fn nft_success_actions(
    events: Seq<Event>,
    name: String,
    description: String,
    amount: u64,
    file_path: String,
    blinded_utxo: String,
) -> Seq<Action> {
    seq![
        Action::StartServices,
        Action::SetupWallet,
        Action::FundWallet { address: events[2]->address },
        Action::Mine,
        Action::CreateUtxos { count: UTXO_SET_SIZE },
        Action::CheckFile { path: file_path },
        Action::IssueNft { name, description, amount, file_path },
        Action::ListAssets,
        Action::Send { asset_id: events[7]->asset_id, amount, blinded_utxo },
        Action::Mine,
        Action::StopServices,
        Action::Finish,
    ]
}

/// A successful NFT-style run performs exactly the canonical action
/// sequence: the file is checked before the one issuance, exactly one
/// transfer of the issued asset follows, one block is mined after the
/// funding and one after the transfer, and the services are started first
/// and stopped last, each exactly once.
pub proof fn lemma_nft_success_run(
    name: String,
    description: String,
    amount: u64,
    file_path: String,
    blinded_utxo: String,
    events: Seq<Event>,
)
    requires
        nft_success_events(events),
    ensures
        ({
            let cmd = Commands::MintRGB121 { name, description, amount, file_path, blinded_utxo };
            let end = run(cmd, events).0;
            let actions = run(cmd, events).1;
            &&& end.phase is Done
            &&& end.asset_id == Some(events[7]->asset_id)
            &&& actions =~= nft_success_actions(
                events,
                name,
                description,
                amount,
                file_path,
                blinded_utxo,
            )
            &&& forall|k: int|
                0 <= k < actions.len() ==> (((#[trigger] actions[k]) is StartServices) <==> k == 0)
            &&& forall|k: int|
                0 <= k < actions.len() ==> (((#[trigger] actions[k]) is Mine) <==> (k == 3 || k
                    == 9))
            &&& forall|k: int|
                0 <= k < actions.len() ==> (((#[trigger] actions[k]) is StopServices) <==> k == 10)
            &&& forall|k: int|
                0 <= k < actions.len() ==> (((#[trigger] actions[k]) is CheckFile) <==> k == 5)
            &&& forall|k: int|
                0 <= k < actions.len() ==> (is_issue_action(#[trigger] actions[k]) <==> k == 6)
            &&& forall|k: int|
                0 <= k < actions.len() ==> (((#[trigger] actions[k]) is Send) <==> k == 8)
        }),
{
    let cmd = Commands::MintRGB121 { name, description, amount, file_path, blinded_utxo };
    let s0 = initial_state(cmd);
    let n0 = spec_step(s0, events[0]);
    let n1 = spec_step(n0.0, events[1]);
    let n2 = spec_step(n1.0, events[2]);
    let n3 = spec_step(n2.0, events[3]);
    let n4 = spec_step(n3.0, events[4]);
    let n5 = spec_step(n4.0, events[5]);
    let n6 = spec_step(n5.0, events[6]);
    let n7 = spec_step(n6.0, events[7]);
    let n8 = spec_step(n7.0, events[8]);
    let n9 = spec_step(n8.0, events[9]);
    let n10 = spec_step(n9.0, events[10]);
    let n11 = spec_step(n10.0, events[11]);
    assert(n0.1 == Action::StartServices);
    assert(n1.1 == Action::SetupWallet);
    assert(n2.1 == (Action::FundWallet { address: events[2]->address }));
    assert(n3.1 == Action::Mine);
    assert(n4.1 == (Action::CreateUtxos { count: UTXO_SET_SIZE }));
    assert(n5.1 == (Action::CheckFile { path: file_path }));
    assert(n6.1 == (Action::IssueNft { name, description, amount, file_path }));
    assert(n7.1 == Action::ListAssets);
    assert(n8.1 == (Action::Send { asset_id: events[7]->asset_id, amount, blinded_utxo }));
    assert(n9.1 == Action::Mine);
    assert(n10.1 == Action::StopServices);
    assert(n11.1 == Action::Finish);
    assert(run_from(n11.0, events, 12).1 =~= Seq::<Action>::empty());
    assert(run_from(n10.0, events, 11).1 =~= seq![n11.1]);
    assert(run_from(n9.0, events, 10).1 =~= seq![n10.1, n11.1]);
    assert(run_from(n8.0, events, 9).1 =~= seq![n9.1, n10.1, n11.1]);
    assert(run_from(n7.0, events, 8).1 =~= seq![n8.1, n9.1, n10.1, n11.1]);
    assert(run_from(n6.0, events, 7).1 =~= seq![n7.1, n8.1, n9.1, n10.1, n11.1]);
    assert(run_from(n5.0, events, 6).1 =~= seq![n6.1, n7.1, n8.1, n9.1, n10.1, n11.1]);
    assert(run_from(n4.0, events, 5).1 =~= seq![n5.1, n6.1, n7.1, n8.1, n9.1, n10.1, n11.1]);
    assert(run_from(n3.0, events, 4).1 =~= seq![n4.1, n5.1, n6.1, n7.1, n8.1, n9.1, n10.1, n11.1]);
    assert(run_from(n2.0, events, 3).1 =~= seq![
        n3.1,
        n4.1,
        n5.1,
        n6.1,
        n7.1,
        n8.1,
        n9.1,
        n10.1,
        n11.1,
    ]);
    assert(run_from(n1.0, events, 2).1 =~= seq![
        n2.1,
        n3.1,
        n4.1,
        n5.1,
        n6.1,
        n7.1,
        n8.1,
        n9.1,
        n10.1,
        n11.1,
    ]);
    assert(run_from(n0.0, events, 1).1 =~= seq![
        n1.1,
        n2.1,
        n3.1,
        n4.1,
        n5.1,
        n6.1,
        n7.1,
        n8.1,
        n9.1,
        n10.1,
        n11.1,
    ]);
    assert(run_from(s0, events, 0).1 =~= seq![
        n0.1,
        n1.1,
        n2.1,
        n3.1,
        n4.1,
        n5.1,
        n6.1,
        n7.1,
        n8.1,
        n9.1,
        n10.1,
        n11.1,
    ]);
    assert(run(cmd, events).1 =~= nft_success_actions(
        events,
        name,
        description,
        amount,
        file_path,
        blinded_utxo,
    ));
}

/// A run whose media-file check finds nothing fails at once: the machine
/// asks for exit code 1 on the spot, answers every later event the same
/// way, and at no point — before or after — requests an issuance, a
/// transfer, or the stopping of the services.
pub proof fn lemma_nft_missing_file(
    name: String,
    description: String,
    amount: u64,
    file_path: String,
    blinded_utxo: String,
    events: Seq<Event>,
)
    requires
        events.len() >= 7,
        events[0] is Begin,
        events[1] is Started,
        events[2] is WalletReady,
        events[3] is Funded,
        events[4] is Mined,
        events[5] is UtxosCreated,
        events[6] matches Event::FileChecked { exists } && !exists,
    ensures
        ({
            let cmd = Commands::MintRGB121 { name, description, amount, file_path, blinded_utxo };
            let end = run(cmd, events).0;
            let actions = run(cmd, events).1;
            &&& end.phase is Failed
            &&& actions.len() == events.len()
            &&& actions[6] == (Action::Fail { code: 1u8 })
            &&& forall|k: int|
                0 <= k < actions.len() ==> !is_issue_action(#[trigger] actions[k]) && !(actions[k]
                    is Send) && !(actions[k] is StopServices) && !(actions[k] is Finish)
        }),
{
    let cmd = Commands::MintRGB121 { name, description, amount, file_path, blinded_utxo };
    let s0 = initial_state(cmd);
    let n0 = spec_step(s0, events[0]);
    let n1 = spec_step(n0.0, events[1]);
    let n2 = spec_step(n1.0, events[2]);
    let n3 = spec_step(n2.0, events[3]);
    let n4 = spec_step(n3.0, events[4]);
    let n5 = spec_step(n4.0, events[5]);
    let n6 = spec_step(n5.0, events[6]);
    assert(n5.1 == (Action::CheckFile { path: file_path }));
    assert(n6.0.phase is Failed);
    assert(n6.1 == (Action::Fail { code: 1u8 }));
    lemma_failed_absorbing(n6.0, events, 7);
    lemma_run_from_len(n6.0, events, 7);
    let tail = run_from(n6.0, events, 7);
    assert(run_from(n5.0, events, 6).1 =~= seq![n6.1] + tail.1);
    assert(run_from(n4.0, events, 5).1 =~= seq![n5.1, n6.1] + tail.1);
    assert(run_from(n3.0, events, 4).1 =~= seq![n4.1, n5.1, n6.1] + tail.1);
    assert(run_from(n2.0, events, 3).1 =~= seq![n3.1, n4.1, n5.1, n6.1] + tail.1);
    assert(run_from(n1.0, events, 2).1 =~= seq![n2.1, n3.1, n4.1, n5.1, n6.1] + tail.1);
    assert(run_from(n0.0, events, 1).1 =~= seq![n1.1, n2.1, n3.1, n4.1, n5.1, n6.1] + tail.1);
    let actions = run(cmd, events).1;
    assert(actions =~= seq![n0.1, n1.1, n2.1, n3.1, n4.1, n5.1, n6.1] + tail.1);
    assert forall|k: int|
        0 <= k < actions.len() implies !is_issue_action(#[trigger] actions[k]) && !(actions[k]
        is Send) && !(actions[k] is StopServices) && !(actions[k] is Finish) by {
        if k >= 7 {
            assert(actions[k] == tail.1[k - 7]);
            assert(tail.1[k - 7] == (Action::Fail { code: 1u8 }));
        }
    }
}

} // verus!
