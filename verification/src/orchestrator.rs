//! The mint-and-transfer state machine.
//!
//! The whole run of the tool is strictly linear: start the auxiliary
//! services, set up and fund a wallet, create a UTXO set, issue the
//! requested asset, list the wallet's assets, send the asset to the blinded
//! UTXO, mine a confirmation block, and stop the services. The
//! [`Orchestrator`] holds the parsed command and the current position in
//! that sequence; [`Orchestrator::step`] consumes one [`Event`] reported by
//! the binary and decides the next [`Action`] the binary must perform. Every
//! fallible external step that fails moves the machine to [`Phase::Failed`]
//! and asks the binary to exit with code 1; no failure is retried.

use vstd::prelude::*;

use crate::cli::Commands;
use crate::UTXO_SET_SIZE;

verus! {

/// The position of a run in the linear mint-and-transfer sequence. Each
/// in-progress phase waits for the event that answers the action emitted on
/// entering it.
#[derive(Debug, Clone, Copy, PartialEq, Eq, Structural)]
pub enum Phase {
    /// Nothing has happened yet.
    Init,
    /// The services are being started.
    Starting,
    /// The wallet is being created and brought online.
    PreparingWallet,
    /// The wallet's address is being funded.
    Funding,
    /// A block is being mined so the funding confirms.
    MiningFunding,
    /// The fixed-size UTXO set is being created.
    CreatingUtxos,
    /// The NFT media file is being checked for existence.
    CheckingFile,
    /// The asset is being issued.
    Issuing,
    /// The wallet's assets are being listed for verification.
    ListingAssets,
    /// The transfer is being submitted.
    Sending,
    /// A block is being mined so the transfer progresses toward finality.
    MiningTransfer,
    /// The services are being stopped.
    Stopping,
    /// The run finished successfully.
    Done,
    /// The run failed; the machine stays here.
    Failed,
}

/// What the binary reports back after performing an action. Events that
/// carry no payload stand for plain success; the fallible external calls
/// (issuing, sending) have explicit failure events.
#[derive(Debug, Clone, PartialEq, Eq)]
pub enum Event {
    /// Begin the run.
    Begin,
    /// The services started.
    Started,
    /// The wallet exists and is online; here is its receiving address.
    WalletReady { address: String },
    /// The funding call succeeded.
    Funded,
    /// The mining call succeeded.
    Mined,
    /// The UTXO set was created.
    UtxosCreated,
    /// The NFT media file was checked; `exists` says whether it is on disk.
    FileChecked { exists: bool },
    /// Issuance succeeded and returned this asset identifier.
    Issued { asset_id: String },
    /// Issuance failed.
    IssueFailed,
    /// The wallet's assets were listed.
    AssetsListed,
    /// The transfer was submitted and returned this transaction identifier.
    Sent { txid: String },
    /// The transfer failed.
    SendFailed,
    /// The services stopped.
    Stopped,
}

/// What the binary must do next. Payloads carry only the values the
/// decision depends on; fixed configuration (funding amount, endpoints, fee
/// rate) is exposed by [`crate::config`].
#[derive(Debug, Clone, PartialEq, Eq)]
pub enum Action {
    /// Run the service script with its start argument.
    StartServices,
    /// Create the data directory, generate keys, construct the wallet and
    /// bring it online.
    SetupWallet,
    /// Fund this wallet address from the miner wallet.
    FundWallet { address: String },
    /// Mine exactly one block.
    Mine,
    /// Create the fixed-size set of `count` UTXOs.
    CreateUtxos { count: u8 },
    /// Check whether the NFT media file at `path` exists on disk.
    CheckFile { path: String },
    /// Issue an NFT-style asset carrying the media file.
    IssueNft { name: String, description: String, amount: u64, file_path: String },
    /// Issue a fungible asset.
    IssueFungible { ticker: String, name: String, amount: u64 },
    /// List the wallet's assets for verification.
    ListAssets,
    /// Send `amount` of the issued asset `asset_id` to `blinded_utxo`.
    Send { asset_id: String, amount: u64, blinded_utxo: String },
    /// Run the service script with its stop argument.
    StopServices,
    /// The run is complete; exit with code 0.
    Finish,
    /// The run failed; exit with this code.
    Fail { code: u8 },
}

/// The state of one run: the parsed command, the current phase, and the
/// identifier of the issued asset once issuance has succeeded.
#[derive(Debug, Clone, PartialEq, Eq)]
pub struct Orchestrator {
    pub command: Commands,
    pub phase: Phase,
    pub asset_id: Option<String>,
}

/// The state a run starts in.
pub open spec fn initial_state(command: Commands) -> Orchestrator {
    Orchestrator { command, phase: Phase::Init, asset_id: None }
}

/// The transition function of the machine: from a state and an event to the
/// next state and the action the binary must perform. An event that the
/// current phase does not expect is a driver error and fails the run; the
/// `Done` and `Failed` phases absorb every further event.
pub open spec fn spec_step(o: Orchestrator, event: Event) -> (Orchestrator, Action) {
    match (o.phase, event) {
        (Phase::Init, Event::Begin) => (
            Orchestrator { phase: Phase::Starting, ..o },
            Action::StartServices,
        ),
        (Phase::Starting, Event::Started) => (
            Orchestrator { phase: Phase::PreparingWallet, ..o },
            Action::SetupWallet,
        ),
        (Phase::PreparingWallet, Event::WalletReady { address }) => (
            Orchestrator { phase: Phase::Funding, ..o },
            Action::FundWallet { address },
        ),
        (Phase::Funding, Event::Funded) => (
            Orchestrator { phase: Phase::MiningFunding, ..o },
            Action::Mine,
        ),
        (Phase::MiningFunding, Event::Mined) => (
            Orchestrator { phase: Phase::CreatingUtxos, ..o },
            Action::CreateUtxos { count: UTXO_SET_SIZE },
        ),
        (Phase::CreatingUtxos, Event::UtxosCreated) => match o.command {
            Commands::MintRGB121 { file_path, .. } => (
                Orchestrator { phase: Phase::CheckingFile, ..o },
                Action::CheckFile { path: file_path },
            ),
            Commands::MintRGB20 { name, ticker, amount, .. } => (
                Orchestrator { phase: Phase::Issuing, ..o },
                Action::IssueFungible { ticker, name, amount },
            ),
        },
        (Phase::CheckingFile, Event::FileChecked { exists }) => match o.command {
            Commands::MintRGB121 { name, description, amount, file_path, .. } => if exists {
                (
                    Orchestrator { phase: Phase::Issuing, ..o },
                    Action::IssueNft { name, description, amount, file_path },
                )
            } else {
                (Orchestrator { phase: Phase::Failed, ..o }, Action::Fail { code: 1 })
            },
            Commands::MintRGB20 { .. } => (
                Orchestrator { phase: Phase::Failed, ..o },
                Action::Fail { code: 1 },
            ),
        },
        (Phase::Issuing, Event::Issued { asset_id }) => (
            Orchestrator { phase: Phase::ListingAssets, asset_id: Some(asset_id), ..o },
            Action::ListAssets,
        ),
        (Phase::Issuing, Event::IssueFailed) => (
            Orchestrator { phase: Phase::Failed, ..o },
            Action::Fail { code: 1 },
        ),
        (Phase::ListingAssets, Event::AssetsListed) => match o.asset_id {
            Some(asset_id) => (
                Orchestrator { phase: Phase::Sending, ..o },
                Action::Send {
                    asset_id,
                    amount: o.command.spec_amount(),
                    blinded_utxo: o.command.spec_blinded_utxo(),
                },
            ),
            // No asset was recorded: nothing to transfer.
            None => (Orchestrator { phase: Phase::Failed, ..o }, Action::Fail { code: 1 }),
        },
        (Phase::Sending, Event::Sent { txid }) => (
            Orchestrator { phase: Phase::MiningTransfer, ..o },
            Action::Mine,
        ),
        (Phase::Sending, Event::SendFailed) => (
            Orchestrator { phase: Phase::Failed, ..o },
            Action::Fail { code: 1 },
        ),
        (Phase::MiningTransfer, Event::Mined) => (
            Orchestrator { phase: Phase::Stopping, ..o },
            Action::StopServices,
        ),
        (Phase::Stopping, Event::Stopped) => (
            Orchestrator { phase: Phase::Done, ..o },
            Action::Finish,
        ),
        (Phase::Done, _) => (o, Action::Finish),
        _ => (Orchestrator { phase: Phase::Failed, ..o }, Action::Fail { code: 1 }),
    }
}

/// Well-formedness of a state: once the machine is past issuance on the
/// success path, the issued asset's identifier is recorded.
pub open spec fn wf(o: Orchestrator) -> bool {
    (o.phase is ListingAssets || o.phase is Sending || o.phase is MiningTransfer
        || o.phase is Stopping || o.phase is Done) ==> o.asset_id is Some
}

impl Orchestrator {
    /// A fresh run for the given command.
    pub fn new(command: Commands) -> (r: Self)
        ensures
            r == initial_state(command),
            wf(r),
    {
        Orchestrator { command, phase: Phase::Init, asset_id: None }
    }

    /// Consumes the event the binary reports and returns the next action to
    /// perform. The new state and the action are exactly those of
    /// [`spec_step`].
    pub fn step(&mut self, event: Event) -> (action: Action)
        ensures
            (*final(self), action) == spec_step(*old(self), event),
            wf(*old(self)) ==> wf(*final(self)),
    {
        match (self.phase, event) {
            (Phase::Init, Event::Begin) => {
                self.phase = Phase::Starting;
                Action::StartServices
            },
            (Phase::Starting, Event::Started) => {
                self.phase = Phase::PreparingWallet;
                Action::SetupWallet
            },
            (Phase::PreparingWallet, Event::WalletReady { address }) => {
                self.phase = Phase::Funding;
                Action::FundWallet { address }
            },
            (Phase::Funding, Event::Funded) => {
                self.phase = Phase::MiningFunding;
                Action::Mine
            },
            (Phase::MiningFunding, Event::Mined) => {
                self.phase = Phase::CreatingUtxos;
                Action::CreateUtxos { count: UTXO_SET_SIZE }
            },
            (Phase::CreatingUtxos, Event::UtxosCreated) => match &self.command {
                Commands::MintRGB121 { file_path, .. } => {
                    let path = file_path.clone();
                    self.phase = Phase::CheckingFile;
                    Action::CheckFile { path }
                },
                Commands::MintRGB20 { name, ticker, amount, .. } => {
                    let name = name.clone();
                    let ticker = ticker.clone();
                    let amount = *amount;
                    self.phase = Phase::Issuing;
                    Action::IssueFungible { ticker, name, amount }
                },
            },
            (Phase::CheckingFile, Event::FileChecked { exists }) => match &self.command {
                Commands::MintRGB121 { name, description, amount, file_path, .. } => {
                    if exists {
                        let name = name.clone();
                        let description = description.clone();
                        let amount = *amount;
                        let file_path = file_path.clone();
                        self.phase = Phase::Issuing;
                        Action::IssueNft { name, description, amount, file_path }
                    } else {
                        self.phase = Phase::Failed;
                        Action::Fail { code: 1 }
                    }
                },
                Commands::MintRGB20 { .. } => {
                    self.phase = Phase::Failed;
                    Action::Fail { code: 1 }
                },
            },
            (Phase::Issuing, Event::Issued { asset_id }) => {
                self.phase = Phase::ListingAssets;
                self.asset_id = Some(asset_id);
                Action::ListAssets
            },
            (Phase::Issuing, Event::IssueFailed) => {
                self.phase = Phase::Failed;
                Action::Fail { code: 1 }
            },
            (Phase::ListingAssets, Event::AssetsListed) => match &self.asset_id {
                Some(asset_id) => {
                    let asset_id = asset_id.clone();
                    let amount = self.command.amount();
                    let blinded_utxo = self.command.blinded_utxo().clone();
                    self.phase = Phase::Sending;
                    Action::Send { asset_id, amount, blinded_utxo }
                },
                None => {
                    self.phase = Phase::Failed;
                    Action::Fail { code: 1 }
                },
            },
            (Phase::Sending, Event::Sent { txid: _ }) => {
                self.phase = Phase::MiningTransfer;
                Action::Mine
            },
            (Phase::Sending, Event::SendFailed) => {
                self.phase = Phase::Failed;
                Action::Fail { code: 1 }
            },
            (Phase::MiningTransfer, Event::Mined) => {
                self.phase = Phase::Stopping;
                Action::StopServices
            },
            (Phase::Stopping, Event::Stopped) => {
                self.phase = Phase::Done;
                Action::Finish
            },
            (Phase::Done, _) => Action::Finish,
            _ => {
                self.phase = Phase::Failed;
                Action::Fail { code: 1 }
            },
        }
    }
}

impl Action {
    /// The exit code this action asks the binary to terminate with:
    /// `Some(0)` on `Finish`, the failure code on `Fail`, and `None` for
    /// every action that keeps the run going.
    pub fn exit_code(&self) -> (r: Option<u8>)
        ensures
            r == (match self {
                Action::Finish => Some(0u8),
                Action::Fail { code } => Some(*code),
                _ => None::<u8>,
            }),
    {
        match self {
            Action::Finish => Some(0),
            Action::Fail { code } => Some(*code),
            _ => None,
        }
    }
}

} // verus!
