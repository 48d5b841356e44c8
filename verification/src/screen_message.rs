//! What can happen to the dashboard.

use vstd::prelude::*;

use crate::account_dropdown;
use crate::activity::IndexedTx;
use crate::apps;
use crate::contacts_settings;
use crate::home::PendingSafeTx;
use crate::identity::SafeDescriptor;
use crate::keys::Event;
use crate::nav::Nav;
use crate::networks;
use crate::orders::{CowHost, TrackedOrder};
use crate::portfolio::LiveToken;
use crate::review::ReviewLeg;
use crate::screen::{DetailFacts, VerificationStatus};
use crate::screen_orders::{OrderNews, SwapOutcome};
use crate::screen_panes::{SafesOutcome, TxDetailsOutcome};
use crate::screen_safe::DetailEvent;
use crate::screen_send::SendEvent;
use crate::signer::SignerHandoff;
use crate::swap::QuoteResponse;
use crate::types::{Address, Chain, Hash32, NetworkId};

verus! {

/// What happens in the review.
#[derive(Debug, Clone, Copy, PartialEq, Eq, Structural)]
pub enum ReviewEvent {
    Confirm,
    Cancel,
    /// A click beside everything.
    BoxClickIgnored,
    /// An address was copied.
    AddressCopied,
    Key(Event),
}

/// What can happen to the dashboard. The dialogs whose state is not the dashboard's
/// handle their own events; what they ask in turn is what comes here.
pub enum Message {
    /// The verified client was asked how it is doing.
    VerificationRefreshed(VerificationStatus),
    /// The Safes of the wallet have changed.
    SafesUpdated(Vec<SafeDescriptor>),
    PortfolioFetched {
        address: Address,
        network: NetworkId,
        result: Result<Vec<LiveToken>, String>,
    },
    HistoryFetched { address: Address, chain: Chain, result: Result<Vec<IndexedTx>, String> },
    RetryHistory,
    SafePendingFetched {
        safe: Address,
        chain: Chain,
        result: Result<Vec<PendingSafeTx>, String>,
    },
    SelectNav(Nav),
    SelectTheme(u8),
    OpenSend,
    OpenReceive,
    OpenSwap,
    OpenAccountDropdown,
    ReconnectHardware,
    RefreshPortfolio,
    /// By its place in the feed.
    OpenTxDetails(usize),
    AccountDropdown(account_dropdown::Message),
    /// Whether the receive dialog is to be closed.
    Receive(bool),
    Send(SendEvent),
    Swap(Option<SwapOutcome>),
    TxDetails(Option<TxDetailsOutcome>),
    /// A frame passed.
    Tick,
    OpenNetworksSettings,
    Networks(networks::Message),
    /// Whether the network wizard is done.
    NetworkWizard(bool),
    OpenSafesSettings,
    SafesSettings(Option<SafesOutcome>),
    OpenAppearanceSettings,
    CloseAppearanceSettings,
    OpenContactsSettings,
    OpenContactsPaneWith { address: Address, ens: Option<String> },
    Contacts(contacts_settings::Message),
    SafeSendBroadcastReturn(Result<Hash32, String>),
    SafeSendProposeReturn(Result<(), String>),
    /// By its place in the queue.
    OpenSafeTxDetails(usize),
    SafeTxDetail(DetailEvent),
    SafeTxDetailLoaded(Result<DetailFacts, String>),
    /// `again` tells that the simulation is to be made once more.
    SafeTxInnerSimLoaded { safe_tx_hash: Hash32, again: bool },
    SafeTxExecSimLoaded { safe_tx_hash: Hash32, again: bool },
    SafeTxActionDone(Result<String, String>),
    BeginRenameAccount,
    RenameInput(String),
    CommitRename,
    CancelRename,
    SendBroadcastReturn { result: Result<Hash32, String>, signer: SignerHandoff },
    EnsAutoNameResolved { address: Address, result: Result<Option<String>, String> },
    ClipboardWritten,
    ClipboardClearArmed { generation: u64 },
    ClipboardClearProbe { generation: u64, actual: Option<String> },
    Apps(apps::Message),
    SignReview(ReviewEvent),
    SignReviewPrepared { seq: u64, legs: Result<Vec<ReviewLeg>, String> },
    NameReverseScanned { owner: Address },
    NameStatusLoaded { owner: Address },
    NameSearched { owner: Address, seq: u64 },
    NameQuoted { owner: Address, years: u32 },
    NameCommitted { signer: SignerHandoff },
    NameRegistered { signer: SignerHandoff },
    NameRenewed { signer: SignerHandoff },
    NameRecipientSet { signer: SignerHandoff },
    CowQuote { host: CowHost, result: Result<QuoteResponse, String> },
    CowPlaced { host: CowHost, result: Result<TrackedOrder, String>, signer: SignerHandoff },
    CowCancel { host: CowHost, uid: String, result: Result<(), String>, signer: SignerHandoff },
    CowStatus { uid: String, result: Result<OrderNews, String> },
    CowPollTick,
    CowAccountOrders { address: Address, chain: Chain, result: Result<Vec<TrackedOrder>, String> },
    SwapTokensRefetched {
        address: Address,
        network: NetworkId,
        slots: Vec<Option<Address>>,
        result: Result<Vec<LiveToken>, String>,
    },
}

} // verus!
