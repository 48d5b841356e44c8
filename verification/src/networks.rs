//! The networks pane of the settings: the execution and consensus endpoints of
//! each chain, and the checkpoint.

use vstd::prelude::*;

use crate::text::{is_white, trim, trimmed};
use crate::types::{
    all_hex, hash_hex, hex_digits, hex_value, lemma_hex_digits_read_back, pow16, push_hash, two128,
    unprefixed, Chain, Hash32,
};

verus! {

/// One value per chain.
#[derive(Debug)]
pub struct PerChain<T> {
    pub mainnet: T,
    pub optimism: T,
    pub base: T,
}

impl<T> PerChain<T> {
    pub open spec fn at(self, c: Chain) -> T {
        match c {
            Chain::Mainnet => self.mainnet,
            Chain::Optimism => self.optimism,
            Chain::Base => self.base,
        }
    }

    pub open spec fn with(self, c: Chain, v: T) -> PerChain<T> {
        match c {
            Chain::Mainnet => PerChain { mainnet: v, ..self },
            Chain::Optimism => PerChain { optimism: v, ..self },
            Chain::Base => PerChain { base: v, ..self },
        }
    }

    /// The value of a chain.
    pub fn get(&self, c: Chain) -> (r: &T)
        ensures
            *r == self.at(c),
    {
        match c {
            Chain::Mainnet => &self.mainnet,
            Chain::Optimism => &self.optimism,
            Chain::Base => &self.base,
        }
    }

    /// Sets the value of a chain.
    pub fn set(&mut self, c: Chain, v: T)
        ensures
            *final(self) == old(self).with(c, v),
            final(self).at(c) == v,
            forall|d: Chain| d != c ==> final(self).at(d) == old(self).at(d),
    {
        match c {
            Chain::Mainnet => {
                self.mainnet = v;
            },
            Chain::Optimism => {
                self.optimism = v;
            },
            Chain::Base => {
                self.base = v;
            },
        }
    }
}

/// The form.
#[derive(Debug)]
pub struct Draft {
    pub execution: PerChain<String>,
    pub consensus: PerChain<String>,
    /// The pasted checkpoint; blank for the automatic one.
    pub checkpoint_override: String,
}

/// What happens to the pane.
#[derive(Debug)]
pub enum Message {
    Back,
    ExecChanged(Chain, String),
    ConsensusChanged(Chain, String),
    CheckpointChanged(String),
    Save,
    Saved,
}

/// What the pane asks of its coordinator.
#[derive(Debug, Clone, Copy, PartialEq, Eq, Structural)]
pub enum Outcome {
    Closed,
}

/// The settings that a save writes. An empty endpoint clears the chain's own,
/// so that the default takes over again.
#[derive(Debug)]
pub struct Settings {
    pub execution: PerChain<Option<String>>,
    pub consensus: PerChain<Option<String>>,
    pub checkpoint: Option<Hash32>,
}

/// The pane.
#[derive(Debug)]
pub struct NetworksPane {
    pub draft: Draft,
    pub saving: bool,
}

// ── texts that have to be well-formed ───────────────────────────────────────

/// The scheme of a URL, where the text is one.
pub uninterp spec fn url_scheme(s: Seq<char>) -> Option<Seq<char>>;

/// `url`'s `Url::parse` and the scheme of its result: nothing where the text is
/// no absolute URL.
#[verifier::external_body]
fn scheme_of(s: &str) -> (r: Option<String>)
    ensures
        match r {
            Some(x) => url_scheme(s@) == Some(x@),
            None => url_scheme(s@) is None,
        },
{
    match url::Url::parse(s) {
        Ok(u) => Some(u.scheme().to_string()),
        Err(_) => None,
    }
}

/// `s` is a URL with the scheme `https`.
pub open spec fn https_url(s: Seq<char>) -> bool {
    trimmed(s).len() > 0 && url_scheme(trimmed(s)) == Some("https"@)
}

/// A scheme is the one that is required.
pub fn is_https_scheme(scheme: &Option<String>) -> (b: bool)
    ensures
        b == (scheme matches Some(x) && x@ == "https"@),
{
    match scheme {
        Some(x) => crate::text::same_text(x.as_str(), "https"),
        None => false,
    }
}

/// Tells whether `s` is a URL with the scheme `https`. A plain `http` endpoint
/// could be tampered with on the way.
pub fn is_https_url(s: &str) -> (b: bool)
    ensures
        b == https_url(s@),
{
    let t = trim(s);
    if t.as_str().is_empty() {
        return false;
    }
    let scheme = scheme_of(t.as_str());
    is_https_scheme(&scheme)
}

/// The hash that a text of 64 hexadecimal digits writes, with or without a `0x`
/// in front; no other text writes one.
pub open spec fn hash_of_hex(s: Seq<char>) -> Option<Hash32> {
    let t = unprefixed(s);
    if t.len() == 64 && all_hex(t) {
        Some(
            Hash32 {
                hi: hex_value(t.subrange(0, 32)) as u128,
                lo: hex_value(t.subrange(32, 64)) as u128,
            },
        )
    } else {
        None
    }
}

/// `alloy`'s `B256::from_str` reads 64 hexadecimal digits of either case, with
/// or without a leading `0x` or `0X`, as the bytes they write, and refuses
/// everything else.
#[verifier::external_body]
fn parse_hash(s: &str) -> (r: Option<Hash32>)
    ensures
        r == hash_of_hex(s@),
{
    let h: alloy::primitives::B256 = s.parse().ok()?;
    let hi = u128::from_be_bytes(h[..16].try_into().ok()?);
    let lo = u128::from_be_bytes(h[16..].try_into().ok()?);
    Some(Hash32 { hi, lo })
}

/// The checkpoint that the form holds: none where it is blank, or no hash.
pub fn parse_checkpoint(s: &str) -> (r: Option<Hash32>)
    ensures
        r == if s@.len() == 0 {
            None
        } else {
            hash_of_hex(s@)
        },
{
    if s.is_empty() {
        return None;
    }
    parse_hash(s)
}

// ── the form ────────────────────────────────────────────────────────────────

/// An endpoint field can be saved: a URL with the scheme `https`, or blank where
/// the chain can do without.
pub open spec fn endpoint_valid(s: Seq<char>, mandatory: bool) -> bool {
    (!mandatory && trimmed(s).len() == 0) || https_url(trimmed(s))
}

/// Both endpoint fields of a chain can be saved.
pub open spec fn chain_valid(d: Draft, c: Chain, mandatory: bool) -> bool {
    endpoint_valid(d.execution.at(c)@, mandatory) && endpoint_valid(d.consensus.at(c)@, mandatory)
}

/// The form can be saved. Mainnet needs both its endpoints; the checkpoint is
/// blank or a hash.
pub open spec fn valid(d: Draft) -> bool {
    &&& chain_valid(d, Chain::Mainnet, true)
    &&& chain_valid(d, Chain::Optimism, false)
    &&& chain_valid(d, Chain::Base, false)
    &&& trimmed(d.checkpoint_override@).len() == 0 || hash_of_hex(
        trimmed(d.checkpoint_override@),
    ) is Some
}

/// Tells whether an endpoint field can be saved.
fn endpoint_ok(s: &str, mandatory: bool) -> (b: bool)
    ensures
        b == endpoint_valid(s@, mandatory),
{
    let t = trim(s);
    if !mandatory && t.as_str().is_empty() {
        return true;
    }
    is_https_url(t.as_str())
}

/// Tells whether the form can be saved.
pub fn draft_valid(d: &Draft) -> (b: bool)
    ensures
        b == valid(*d),
{
    let execution = endpoint_ok(d.execution.mainnet.as_str(), true) && endpoint_ok(
        d.execution.optimism.as_str(),
        false,
    ) && endpoint_ok(d.execution.base.as_str(), false);
    let consensus = endpoint_ok(d.consensus.mainnet.as_str(), true) && endpoint_ok(
        d.consensus.optimism.as_str(),
        false,
    ) && endpoint_ok(d.consensus.base.as_str(), false);
    let cp = trim(d.checkpoint_override.as_str());
    let checkpoint = cp.as_str().is_empty() || parse_hash(cp.as_str()).is_some();
    execution && consensus && checkpoint
}

/// What a save writes for an endpoint field.
pub open spec fn saved_endpoint(s: Seq<char>) -> Option<Seq<char>> {
    if trimmed(s).len() == 0 {
        None
    } else {
        Some(trimmed(s))
    }
}

/// The text of an optional string.
pub open spec fn text_opt(o: Option<String>) -> Option<Seq<char>> {
    match o {
        Some(s) => Some(s@),
        None => None,
    }
}

fn endpoint_to_save(s: &str) -> (r: Option<String>)
    ensures
        text_opt(r) == saved_endpoint(s@),
{
    let t = trim(s);
    if t.as_str().is_empty() {
        None
    } else {
        Some(t)
    }
}

/// The settings of a chain say what the form says of it.
pub open spec fn chain_written(w: Settings, d: Draft, c: Chain) -> bool {
    &&& text_opt(w.execution.at(c)) == saved_endpoint(d.execution.at(c)@)
    &&& text_opt(w.consensus.at(c)) == saved_endpoint(d.consensus.at(c)@)
}

/// The settings say what the form says.
pub open spec fn writes(w: Settings, d: Draft) -> bool {
    &&& forall|c: Chain| #[trigger] chain_written(w, d, c)
    &&& w.checkpoint == if trimmed(d.checkpoint_override@).len() == 0 {
        None
    } else {
        hash_of_hex(trimmed(d.checkpoint_override@))
    }
}

/// The text that an endpoint field starts with: the first configured endpoint,
/// or the default where there is none.
fn seed(configured: &Vec<String>, default: &str) -> (r: String)
    ensures
        r@ == if configured@.len() > 0 && configured@[0]@.len() > 0 {
            configured@[0]@
        } else {
            default@
        },
{
    if configured.len() > 0 && !configured[0].as_str().is_empty() {
        configured[0].clone()
    } else {
        default.to_owned()
    }
}

/// What a chain's endpoint field starts with.
pub open spec fn seeded(configured: Seq<String>, default: Seq<char>) -> Seq<char> {
    if configured.len() > 0 && configured[0]@.len() > 0 {
        configured[0]@
    } else {
        default
    }
}

impl NetworksPane {
    /// The pane, filled in with what each chain uses: its configured endpoints,
    /// else its defaults.
    pub fn new(
        execution: &PerChain<Vec<String>>,
        consensus: &PerChain<Vec<String>>,
        default_exec: &PerChain<String>,
        default_consensus: &PerChain<String>,
        checkpoint: Option<Hash32>,
    ) -> (r: NetworksPane)
        ensures
            !r.saving,
            forall|c: Chain| #[trigger]
                r.draft.execution.at(c)@ == seeded(execution.at(c)@, default_exec.at(c)@),
            forall|c: Chain| #[trigger]
                r.draft.consensus.at(c)@ == seeded(consensus.at(c)@, default_consensus.at(c)@),
            r.draft.checkpoint_override@ == match checkpoint {
                Some(h) => hash_hex(h),
                None => Seq::empty(),
            },
    {
        let e = PerChain {
            mainnet: seed(&execution.mainnet, default_exec.mainnet.as_str()),
            optimism: seed(&execution.optimism, default_exec.optimism.as_str()),
            base: seed(&execution.base, default_exec.base.as_str()),
        };
        let k = PerChain {
            mainnet: seed(&consensus.mainnet, default_consensus.mainnet.as_str()),
            optimism: seed(&consensus.optimism, default_consensus.optimism.as_str()),
            base: seed(&consensus.base, default_consensus.base.as_str()),
        };
        let mut text = String::new();
        if let Some(h) = checkpoint {
            push_hash(&mut text, h);
        }
        NetworksPane {
            draft: Draft { execution: e, consensus: k, checkpoint_override: text },
            saving: false,
        }
    }

    /// Handles a message: the settings to write, and what is asked of the
    /// coordinator.
    pub fn update(&mut self, msg: Message) -> (r: (Option<Settings>, Option<Outcome>))
        ensures
            match msg {
                Message::Back => {
                    r.0 is None && r.1 == Some(Outcome::Closed) && *final(self) == *old(self)
                },
                Message::ExecChanged(c, s) => {
                    &&& r.0 is None && r.1 is None
                    &&& final(self).draft.execution.at(c) == s
                    &&& forall|d: Chain|
                        d != c ==> final(self).draft.execution.at(d) == old(self).draft.execution.at(d)
                    &&& final(self).draft.consensus == old(self).draft.consensus
                    &&& final(self).draft.checkpoint_override
                        == old(self).draft.checkpoint_override
                    &&& final(self).saving == old(self).saving
                },
                Message::ConsensusChanged(c, s) => {
                    &&& r.0 is None && r.1 is None
                    &&& final(self).draft.consensus.at(c) == s
                    &&& forall|d: Chain|
                        d != c ==> final(self).draft.consensus.at(d)
                            == old(self).draft.consensus.at(d)
                    &&& final(self).draft.execution == old(self).draft.execution
                    &&& final(self).draft.checkpoint_override
                        == old(self).draft.checkpoint_override
                    &&& final(self).saving == old(self).saving
                },
                Message::CheckpointChanged(s) => {
                    &&& r.0 is None && r.1 is None
                    &&& final(self).draft.checkpoint_override == s
                    &&& final(self).draft.execution == old(self).draft.execution
                    &&& final(self).draft.consensus == old(self).draft.consensus
                    &&& final(self).saving == old(self).saving
                },
                Message::Save => {
                    &&& r.0 matches Some(w) && writes(w, old(self).draft)
                    &&& r.1 is None
                    &&& final(self).saving
                    &&& final(self).draft == old(self).draft
                },
                Message::Saved => {
                    &&& r.0 is None && r.1 == Some(Outcome::Closed)
                    &&& !final(self).saving
                    &&& final(self).draft == old(self).draft
                },
            },
    {
        match msg {
            Message::Back => (None, Some(Outcome::Closed)),
            Message::ExecChanged(c, s) => {
                self.draft.execution.set(c, s);
                (None, None)
            },
            Message::ConsensusChanged(c, s) => {
                self.draft.consensus.set(c, s);
                (None, None)
            },
            Message::CheckpointChanged(s) => {
                self.draft.checkpoint_override = s;
                (None, None)
            },
            Message::Save => {
                let w = self.to_save();
                self.saving = true;
                (Some(w), None)
            },
            Message::Saved => {
                self.saving = false;
                (None, Some(Outcome::Closed))
            },
        }
    }

    /// The settings that the form writes.
    fn to_save(&self) -> (w: Settings)
        ensures
            writes(w, self.draft),
    {
        let cp = trim(self.draft.checkpoint_override.as_str());
        let d = &self.draft;
        let execution = PerChain {
            mainnet: endpoint_to_save(d.execution.mainnet.as_str()),
            optimism: endpoint_to_save(d.execution.optimism.as_str()),
            base: endpoint_to_save(d.execution.base.as_str()),
        };
        let consensus = PerChain {
            mainnet: endpoint_to_save(d.consensus.mainnet.as_str()),
            optimism: endpoint_to_save(d.consensus.optimism.as_str()),
            base: endpoint_to_save(d.consensus.base.as_str()),
        };
        Settings { execution, consensus, checkpoint: parse_checkpoint(cp.as_str()) }
    }

    /// Whether the save button can be pressed.
    pub fn can_save(&self) -> (b: bool)
        ensures
            b == (valid(self.draft) && !self.saving),
    {
        draft_valid(&self.draft) && !self.saving
    }
}

/// A form that can be saved writes an endpoint for Mainnet, and the checkpoint
/// that was pasted, if any was.
pub proof fn law_valid_form_is_written(w: Settings, d: Draft)
    requires
        valid(d),
        writes(w, d),
    ensures
        w.execution.at(Chain::Mainnet) is Some,
        w.consensus.at(Chain::Mainnet) is Some,
        trimmed(d.checkpoint_override@).len() > 0 ==> w.checkpoint is Some,
{
    assert(chain_written(w, d, Chain::Mainnet));
}

/// The checkpoint that the form was opened with is written again where it was left
/// alone.
pub proof fn law_shown_checkpoint_is_written(w: Settings, d: Draft, h: Hash32)
    requires
        writes(w, d),
        d.checkpoint_override@ == hash_hex(h),
    ensures
        w.checkpoint == Some(h),
{
    assert(pow16(32) == two128()) by {
        reveal_with_fuel(pow16, 33);
    }
    lemma_hex_digits_read_back(h.hi as nat, 32);
    lemma_hex_digits_read_back(h.lo as nat, 32);
    let s = hash_hex(h);
    let t = unprefixed(s);
    assert(t =~= hex_digits(h.hi as nat, 32) + hex_digits(h.lo as nat, 32));
    assert(t.subrange(0, 32) =~= hex_digits(h.hi as nat, 32));
    assert(t.subrange(32, 64) =~= hex_digits(h.lo as nat, 32));
    assert(s.last() == t[63]);
    assert(!is_white(s[0]) && !is_white(s.last()));
    assert(trimmed(s) == s);
}

/// What the empty checkpoint field says: the checkpoint that is used without one.
pub fn checkpoint_placeholder(auto: Hash32) -> (r: String)
    ensures
        r@ == "auto: "@ + hash_hex(auto),
{
    let mut r = "auto: ".to_owned();
    push_hash(&mut r, auto);
    r
}

} // verus!
