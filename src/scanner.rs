//! Configuration of the chain scanner that recovers wallet outputs and detects
//! one-sided payments; what it finds is handed to the ledger with
//! `TransactionLedger::import_discovered_output`.
use vstd::prelude::*;

verus! {

/// What the scanner is run for.
#[derive(Clone, Copy, Debug, PartialEq, Eq, Structural)]
pub enum UtxoScannerMode {
    /// Restoring a wallet from its seed.
    Recovery,
    /// Watching for new one-sided payments.
    Scanning,
}

impl Default for UtxoScannerMode {
    fn default() -> (m: UtxoScannerMode)
        ensures
            m == UtxoScannerMode::Recovery,
    {
        UtxoScannerMode::Recovery
    }
}

/// Everything the scanner service is started with.
pub struct UtxoScannerSettings {
    /// Public keys of the base nodes to scan from, in order of preference.
    pub peers: Vec<Vec<u8>>,
    /// How many times a scan over all peers is retried.
    pub retry_limit: usize,
    pub mode: UtxoScannerMode,
    /// Note attached to one-sided payments found on the chain.
    pub one_sided_message: String,
    /// Note attached to outputs found during recovery.
    pub recovery_message: String,
}

/// The builder's contents, as plain values.
pub struct BuilderView {
    pub retry_limit: usize,
    pub peers: Seq<Seq<u8>>,
    pub mode: Option<UtxoScannerMode>,
    pub one_sided_message: Seq<char>,
    pub recovery_message: Seq<char>,
}

/// Collects the scanner's settings before the service is built.
pub struct UtxoScannerServiceBuilder {
    retry_limit: usize,
    peers: Vec<Vec<u8>>,
    mode: Option<UtxoScannerMode>,
    one_sided_message: String,
    recovery_message: String,
}

/// The views of a list of public keys.
pub open spec fn key_views(keys: Seq<Vec<u8>>) -> Seq<Seq<u8>> {
    keys.map_values(|k: Vec<u8>| k@)
}

impl View for UtxoScannerServiceBuilder {
    type V = BuilderView;

    closed spec fn view(&self) -> BuilderView {
        BuilderView {
            retry_limit: self.retry_limit,
            peers: key_views(self.peers@),
            mode: self.mode,
            one_sided_message: self.one_sided_message@,
            recovery_message: self.recovery_message@,
        }
    }
}

impl Default for UtxoScannerServiceBuilder {
    fn default() -> (b: UtxoScannerServiceBuilder)
        ensures
            b@.retry_limit == 0,
            b@.peers.len() == 0,
            b@.mode is None,
            b@.one_sided_message == "Detected one-sided payment on blockchain"@,
            b@.recovery_message == "Output found on blockchain during Wallet Recovery"@,
    {
        UtxoScannerServiceBuilder {
            retry_limit: 0,
            peers: Vec::new(),
            mode: None,
            one_sided_message: "Detected one-sided payment on blockchain".to_string(),
            recovery_message: "Output found on blockchain during Wallet Recovery".to_string(),
        }
    }
}

impl UtxoScannerServiceBuilder {
    /// Sets the maximum number of times recovery is retried. A failed recovery
    /// is one in which every peer failed, so the worst case is the number of
    /// peers times this limit.
    pub fn with_retry_limit(&mut self, limit: usize) -> (r: &mut Self)
        ensures
            r@ == (BuilderView { retry_limit: limit, ..old(self)@ }),
            final(self)@ == final(r)@,
    {
        self.retry_limit = limit;
        self
    }

    /// Sets the base nodes to scan from.
    pub fn with_peers(&mut self, peer_public_keys: Vec<Vec<u8>>) -> (r: &mut Self)
        ensures
            r@ == (BuilderView { peers: key_views(peer_public_keys@), ..old(self)@ }),
            final(self)@ == final(r)@,
    {
        self.peers = peer_public_keys;
        self
    }

    /// Sets what the scan is for.
    pub fn with_mode(&mut self, mode: UtxoScannerMode) -> (r: &mut Self)
        ensures
            r@ == (BuilderView { mode: Some(mode), ..old(self)@ }),
            final(self)@ == final(r)@,
    {
        self.mode = Some(mode);
        self
    }

    /// Sets the note for one-sided payments found on the chain.
    pub fn with_one_sided_message(&mut self, message: String) -> (r: &mut Self)
        ensures
            r@ == (BuilderView { one_sided_message: message@, ..old(self)@ }),
            final(self)@ == final(r)@,
    {
        self.one_sided_message = message;
        self
    }

    /// Sets the note for outputs found during recovery.
    pub fn with_recovery_message(&mut self, message: String) -> (r: &mut Self)
        ensures
            r@ == (BuilderView { recovery_message: message@, ..old(self)@ }),
            final(self)@ == final(r)@,
    {
        self.recovery_message = message;
        self
    }

    /// The settings the service starts with. The peers move out of the
    /// builder; a mode never set means recovery.
    pub fn build(&mut self) -> (s: UtxoScannerSettings)
        ensures
            key_views(s.peers@) == old(self)@.peers,
            s.retry_limit == old(self)@.retry_limit,
            s.mode == match old(self)@.mode {
                Some(m) => m,
                None => UtxoScannerMode::Recovery,
            },
            s.one_sided_message@ == old(self)@.one_sided_message,
            s.recovery_message@ == old(self)@.recovery_message,
            final(self)@ == (BuilderView { peers: Seq::empty(), ..old(self)@ }),
    {
        let mut peers: Vec<Vec<u8>> = Vec::new();
        core::mem::swap(&mut peers, &mut self.peers);
        let mode = match self.mode {
            Some(m) => m,
            None => UtxoScannerMode::Recovery,
        };
        proof {
            assert(key_views(self.peers@) =~= Seq::<Seq<u8>>::empty());
        }
        UtxoScannerSettings {
            peers,
            retry_limit: self.retry_limit,
            mode,
            one_sided_message: self.one_sided_message.clone(),
            recovery_message: self.recovery_message.clone(),
        }
    }
}

} // verus!
