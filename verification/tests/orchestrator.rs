use rgb_minter::cli::Commands;
use rgb_minter::orchestrator::{Action, Event, Orchestrator, Phase};
use rgb_minter::UTXO_SET_SIZE;

fn fungible_command() -> Commands {
    Commands::MintRGB20 {
        name: "Test".to_string(),
        ticker: "TST".to_string(),
        amount: 100,
        blinded_utxo: "txob1y3w8h9n4v4tkn37uj55dvqyuhvftrr2cxecp4pzkhjxjc4zcfxtsmdt2vf".to_string(),
    }
}

fn nft_command(file_path: &str) -> Commands {
    Commands::MintRGB121 {
        name: "Test".to_string(),
        description: "Test description".to_string(),
        amount: 1,
        file_path: file_path.to_string(),
        blinded_utxo: "txob1y3w8h9n4v4tkn37uj55dvqyuhvftrr2cxecp4pzkhjxjc4zcfxtsmdt2vf".to_string(),
    }
}

#[test]
fn new_run_starts_in_init() {
    let orch = Orchestrator::new(fungible_command());
    assert_eq!(orch.phase, Phase::Init);
    assert_eq!(orch.asset_id, None);
    assert_eq!(orch.command, fungible_command());
}

#[test]
fn fungible_mint_happy_path() {
    let mut orch = Orchestrator::new(fungible_command());
    assert_eq!(orch.step(Event::Begin), Action::StartServices);
    assert_eq!(orch.step(Event::Started), Action::SetupWallet);
    assert_eq!(
        orch.step(Event::WalletReady { address: "bcrt1qminter".to_string() }),
        Action::FundWallet { address: "bcrt1qminter".to_string() }
    );
    assert_eq!(orch.step(Event::Funded), Action::Mine);
    assert_eq!(orch.step(Event::Mined), Action::CreateUtxos { count: UTXO_SET_SIZE });
    assert_eq!(
        orch.step(Event::UtxosCreated),
        Action::IssueFungible {
            ticker: "TST".to_string(),
            name: "Test".to_string(),
            amount: 100,
        }
    );
    assert_eq!(
        orch.step(Event::Issued { asset_id: "rgb20Asset".to_string() }),
        Action::ListAssets
    );
    // exactly one issued asset of amount 100, and the one transfer carries
    // that asset's identifier, the same amount, and the supplied blinded UTXO
    assert_eq!(
        orch.step(Event::AssetsListed),
        Action::Send {
            asset_id: "rgb20Asset".to_string(),
            amount: 100,
            blinded_utxo: "txob1y3w8h9n4v4tkn37uj55dvqyuhvftrr2cxecp4pzkhjxjc4zcfxtsmdt2vf"
                .to_string(),
        }
    );
    assert_eq!(orch.step(Event::Sent { txid: "txid0".to_string() }), Action::Mine);
    assert_eq!(orch.step(Event::Mined), Action::StopServices);
    let last = orch.step(Event::Stopped);
    assert_eq!(last, Action::Finish);
    assert_eq!(last.exit_code(), Some(0));
    assert_eq!(orch.phase, Phase::Done);
}

#[test]
fn nft_mint_happy_path() {
    let mut orch = Orchestrator::new(nft_command("sample.png"));
    assert_eq!(orch.step(Event::Begin), Action::StartServices);
    assert_eq!(orch.step(Event::Started), Action::SetupWallet);
    assert_eq!(
        orch.step(Event::WalletReady { address: "bcrt1qminter".to_string() }),
        Action::FundWallet { address: "bcrt1qminter".to_string() }
    );
    assert_eq!(orch.step(Event::Funded), Action::Mine);
    assert_eq!(orch.step(Event::Mined), Action::CreateUtxos { count: UTXO_SET_SIZE });
    // the media file is checked before any issuance
    assert_eq!(
        orch.step(Event::UtxosCreated),
        Action::CheckFile { path: "sample.png".to_string() }
    );
    assert_eq!(
        orch.step(Event::FileChecked { exists: true }),
        Action::IssueNft {
            name: "Test".to_string(),
            description: "Test description".to_string(),
            amount: 1,
            file_path: "sample.png".to_string(),
        }
    );
    assert_eq!(
        orch.step(Event::Issued { asset_id: "rgb121Asset".to_string() }),
        Action::ListAssets
    );
    assert_eq!(
        orch.step(Event::AssetsListed),
        Action::Send {
            asset_id: "rgb121Asset".to_string(),
            amount: 1,
            blinded_utxo: "txob1y3w8h9n4v4tkn37uj55dvqyuhvftrr2cxecp4pzkhjxjc4zcfxtsmdt2vf"
                .to_string(),
        }
    );
    assert_eq!(orch.step(Event::Sent { txid: "txid1".to_string() }), Action::Mine);
    assert_eq!(orch.step(Event::Mined), Action::StopServices);
    assert_eq!(orch.step(Event::Stopped), Action::Finish);
    assert_eq!(orch.phase, Phase::Done);
}

#[test]
fn nft_missing_file_exits_one_without_issuing() {
    let mut orch = Orchestrator::new(nft_command("missing.png"));
    assert_eq!(orch.step(Event::Begin), Action::StartServices);
    assert_eq!(orch.step(Event::Started), Action::SetupWallet);
    assert_eq!(
        orch.step(Event::WalletReady { address: "bcrt1qminter".to_string() }),
        Action::FundWallet { address: "bcrt1qminter".to_string() }
    );
    assert_eq!(orch.step(Event::Funded), Action::Mine);
    assert_eq!(orch.step(Event::Mined), Action::CreateUtxos { count: UTXO_SET_SIZE });
    assert_eq!(
        orch.step(Event::UtxosCreated),
        Action::CheckFile { path: "missing.png".to_string() }
    );
    // the file is absent: immediate exit code 1, no issuance requested
    let failure = orch.step(Event::FileChecked { exists: false });
    assert_eq!(failure, Action::Fail { code: 1 });
    assert_eq!(failure.exit_code(), Some(1));
    assert_eq!(orch.phase, Phase::Failed);
    // even if more events were reported, the machine would never issue
    assert_eq!(
        orch.step(Event::Issued { asset_id: "rgb121Asset".to_string() }),
        Action::Fail { code: 1 }
    );
    assert_eq!(orch.phase, Phase::Failed);
}

#[test]
fn issuance_failure_exits_one() {
    let mut orch = Orchestrator::new(fungible_command());
    orch.step(Event::Begin);
    orch.step(Event::Started);
    orch.step(Event::WalletReady { address: "bcrt1qminter".to_string() });
    orch.step(Event::Funded);
    orch.step(Event::Mined);
    orch.step(Event::UtxosCreated);
    let failure = orch.step(Event::IssueFailed);
    assert_eq!(failure, Action::Fail { code: 1 });
    assert_eq!(failure.exit_code(), Some(1));
    assert_eq!(orch.phase, Phase::Failed);
}

#[test]
fn transfer_failure_exits_one() {
    let mut orch = Orchestrator::new(fungible_command());
    orch.step(Event::Begin);
    orch.step(Event::Started);
    orch.step(Event::WalletReady { address: "bcrt1qminter".to_string() });
    orch.step(Event::Funded);
    orch.step(Event::Mined);
    orch.step(Event::UtxosCreated);
    orch.step(Event::Issued { asset_id: "rgb20Asset".to_string() });
    orch.step(Event::AssetsListed);
    let failure = orch.step(Event::SendFailed);
    assert_eq!(failure, Action::Fail { code: 1 });
    assert_eq!(failure.exit_code(), Some(1));
    assert_eq!(orch.phase, Phase::Failed);
}

#[test]
fn unexpected_event_fails_the_run() {
    let mut orch = Orchestrator::new(fungible_command());
    assert_eq!(orch.step(Event::Begin), Action::StartServices);
    // the driver answers with an event the phase does not expect
    assert_eq!(orch.step(Event::Mined), Action::Fail { code: 1 });
    assert_eq!(orch.phase, Phase::Failed);
}

#[test]
fn done_absorbs_further_events() {
    let mut orch = Orchestrator::new(fungible_command());
    orch.step(Event::Begin);
    orch.step(Event::Started);
    orch.step(Event::WalletReady { address: "a".to_string() });
    orch.step(Event::Funded);
    orch.step(Event::Mined);
    orch.step(Event::UtxosCreated);
    orch.step(Event::Issued { asset_id: "id".to_string() });
    orch.step(Event::AssetsListed);
    orch.step(Event::Sent { txid: "t".to_string() });
    orch.step(Event::Mined);
    orch.step(Event::Stopped);
    assert_eq!(orch.phase, Phase::Done);
    assert_eq!(orch.step(Event::Begin), Action::Finish);
    assert_eq!(orch.phase, Phase::Done);
}

#[test]
fn continue_actions_have_no_exit_code() {
    assert_eq!(Action::StartServices.exit_code(), None);
    assert_eq!(Action::Mine.exit_code(), None);
    assert_eq!(Action::ListAssets.exit_code(), None);
    assert_eq!(Action::Fail { code: 1 }.exit_code(), Some(1));
    assert_eq!(Action::Finish.exit_code(), Some(0));
}
