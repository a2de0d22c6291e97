//! The base-node query model: typed requests and responses, the in-memory chain
//! store that answers them, and the client side that checks what came back.
//! A response lists, in request order, the items found; an absent item is
//! left out rather than reported as an error.
use vstd::prelude::*;

verus! {

broadcast use vstd::array::group_array_axioms;

/// A 32-byte hash identifying a kernel or an output.
pub type HashOutput = [u8; 32];

/// State of the chain as the base node sees it.
#[derive(Clone, Copy, Debug, PartialEq, Eq)]
pub struct ChainMetadata {
    pub height_of_longest_chain: Option<u64>,
    pub best_block: Option<HashOutput>,
    pub total_accumulated_difficulty: u128,
    pub pruning_horizon: u64,
}

/// The on-chain proof that a transaction exists.
#[derive(Clone, Copy, Debug, PartialEq, Eq)]
pub struct TransactionKernel {
    pub hash: HashOutput,
    pub fee: u64,
    pub lock_height: u64,
}

/// A block header.
#[derive(Clone, Copy, Debug, PartialEq, Eq)]
pub struct BlockHeader {
    pub version: u16,
    pub height: u64,
    pub prev_hash: HashOutput,
}

/// An unspent output.
#[derive(Clone, Copy, Debug, PartialEq, Eq)]
pub struct TransactionOutput {
    pub hash: HashOutput,
    pub value: u64,
}

/// A block together with how deep it lies.
#[derive(Clone, Copy, Debug, PartialEq, Eq)]
pub struct HistoricalBlock {
    pub header: BlockHeader,
    pub confirmations: u64,
}

/// A query to the base node.
#[derive(Clone, Debug)]
pub enum NodeCommsRequest {
    GetChainMetadata,
    FetchKernels(Vec<HashOutput>),
    FetchHeaders(Vec<u64>),
    FetchUtxos(Vec<HashOutput>),
    FetchBlocks(Vec<u64>),
}

/// The base node's answer to one query.
#[derive(Clone, Debug)]
pub enum NodeCommsResponse {
    ChainMetadata(ChainMetadata),
    TransactionKernels(Vec<TransactionKernel>),
    BlockHeaders(Vec<BlockHeader>),
    TransactionOutputs(Vec<TransactionOutput>),
    HistoricalBlocks(Vec<HistoricalBlock>),
}

/// Why a query failed.
#[derive(Clone, Copy, Debug, PartialEq, Eq, Structural)]
pub enum CommsInterfaceError {
    /// A response of another kind than the query asked for.
    UnexpectedApiResponse,
}

/// Compares two hashes byte by byte.
pub fn hash_eq(a: &HashOutput, b: &HashOutput) -> (r: bool)
    ensures
        r == (*a == *b),
{
    let mut i: usize = 0;
    while i < 32
        invariant
            i <= 32,
            forall|j: int| 0 <= j < i ==> a[j] == b[j],
        decreases 32 - i,
    {
        if a[i] != b[i] {
            return false;
        }
        i = i + 1;
    }
    assert(*a =~= *b);
    true
}

/// The kernel stored under `key`, the latest one if several are.
pub open spec fn find_kernel(store: Seq<TransactionKernel>, key: HashOutput) -> Option<TransactionKernel>
    decreases store.len(),
{
    if store.len() == 0 {
        None
    } else if store.last().hash == key {
        Some(store.last())
    } else {
        find_kernel(store.drop_last(), key)
    }
}

/// The kernels found for `keys`, in request order, absent ones left out.
pub open spec fn fetched_kernels(store: Seq<TransactionKernel>, keys: Seq<HashOutput>) -> Seq<TransactionKernel>
    decreases keys.len(),
{
    if keys.len() == 0 {
        Seq::empty()
    } else {
        let prev = fetched_kernels(store, keys.drop_last());
        match find_kernel(store, keys.last()) {
            Some(x) => prev.push(x),
            None => prev,
        }
    }
}

/// No two stored kernels share a hash.
pub open spec fn unique_kernels(store: Seq<TransactionKernel>) -> bool {
    forall|i: int, j: int| 0 <= i < store.len() && 0 <= j < store.len() && i != j ==> store[i].hash != store[j].hash
}

/// The header stored under `key`, the latest one if several are.
pub open spec fn find_header(store: Seq<BlockHeader>, key: u64) -> Option<BlockHeader>
    decreases store.len(),
{
    if store.len() == 0 {
        None
    } else if store.last().height == key {
        Some(store.last())
    } else {
        find_header(store.drop_last(), key)
    }
}

/// The headers found for `keys`, in request order, absent ones left out.
pub open spec fn fetched_headers(store: Seq<BlockHeader>, keys: Seq<u64>) -> Seq<BlockHeader>
    decreases keys.len(),
{
    if keys.len() == 0 {
        Seq::empty()
    } else {
        let prev = fetched_headers(store, keys.drop_last());
        match find_header(store, keys.last()) {
            Some(x) => prev.push(x),
            None => prev,
        }
    }
}

/// No two stored headers share a height.
pub open spec fn unique_headers(store: Seq<BlockHeader>) -> bool {
    forall|i: int, j: int| 0 <= i < store.len() && 0 <= j < store.len() && i != j ==> store[i].height != store[j].height
}

/// The utxo stored under `key`, the latest one if several are.
pub open spec fn find_utxo(store: Seq<TransactionOutput>, key: HashOutput) -> Option<TransactionOutput>
    decreases store.len(),
{
    if store.len() == 0 {
        None
    } else if store.last().hash == key {
        Some(store.last())
    } else {
        find_utxo(store.drop_last(), key)
    }
}

/// The utxos found for `keys`, in request order, absent ones left out.
pub open spec fn fetched_utxos(store: Seq<TransactionOutput>, keys: Seq<HashOutput>) -> Seq<TransactionOutput>
    decreases keys.len(),
{
    if keys.len() == 0 {
        Seq::empty()
    } else {
        let prev = fetched_utxos(store, keys.drop_last());
        match find_utxo(store, keys.last()) {
            Some(x) => prev.push(x),
            None => prev,
        }
    }
}

/// No two stored utxos share a hash.
pub open spec fn unique_utxos(store: Seq<TransactionOutput>) -> bool {
    forall|i: int, j: int| 0 <= i < store.len() && 0 <= j < store.len() && i != j ==> store[i].hash != store[j].hash
}

/// The block stored under `key`, the latest one if several are.
pub open spec fn find_block(store: Seq<HistoricalBlock>, key: u64) -> Option<HistoricalBlock>
    decreases store.len(),
{
    if store.len() == 0 {
        None
    } else if store.last().header.height == key {
        Some(store.last())
    } else {
        find_block(store.drop_last(), key)
    }
}

/// The blocks found for `keys`, in request order, absent ones left out.
pub open spec fn fetched_blocks(store: Seq<HistoricalBlock>, keys: Seq<u64>) -> Seq<HistoricalBlock>
    decreases keys.len(),
{
    if keys.len() == 0 {
        Seq::empty()
    } else {
        let prev = fetched_blocks(store, keys.drop_last());
        match find_block(store, keys.last()) {
            Some(x) => prev.push(x),
            None => prev,
        }
    }
}

/// No two stored blocks share a height.
pub open spec fn unique_blocks(store: Seq<HistoricalBlock>) -> bool {
    forall|i: int, j: int| 0 <= i < store.len() && 0 <= j < store.len() && i != j ==> store[i].header.height != store[j].header.height
}

fn lookup_kernel(store: &Vec<TransactionKernel>, key: HashOutput) -> (r: Option<TransactionKernel>)
    ensures
        r == find_kernel(store@, key),
{
    let mut i: usize = store.len();
    proof {
        assert(store@.subrange(0, store@.len() as int) =~= store@);
    }
    while i > 0
        invariant
            i <= store@.len(),
            find_kernel(store@, key) == find_kernel(store@.subrange(0, i as int), key),
        decreases i,
    {
        proof {
            assert(store@.subrange(0, i as int).drop_last() =~= store@.subrange(0, i as int - 1));
        }
        if hash_eq(&store[i - 1].hash, &key) {
            return Some(store[i - 1]);
        }
        i = i - 1;
    }
    None
}

fn fetch_kernels(store: &Vec<TransactionKernel>, keys: &Vec<HashOutput>) -> (r: Vec<TransactionKernel>)
    ensures
        r@ == fetched_kernels(store@, keys@),
{
    let mut out: Vec<TransactionKernel> = Vec::new();
    let mut i: usize = 0;
    while i < keys.len()
        invariant
            i <= keys@.len(),
            out@ == fetched_kernels(store@, keys@.subrange(0, i as int)),
        decreases keys@.len() - i,
    {
        proof {
            assert(keys@.subrange(0, i as int + 1).drop_last() =~= keys@.subrange(0, i as int));
        }
        match lookup_kernel(store, keys[i]) {
            Some(x) => out.push(x),
            None => {},
        }
        i = i + 1;
    }
    proof {
        assert(keys@.subrange(0, keys@.len() as int) =~= keys@);
    }
    out
}

fn lookup_header(store: &Vec<BlockHeader>, key: u64) -> (r: Option<BlockHeader>)
    ensures
        r == find_header(store@, key),
{
    let mut i: usize = store.len();
    proof {
        assert(store@.subrange(0, store@.len() as int) =~= store@);
    }
    while i > 0
        invariant
            i <= store@.len(),
            find_header(store@, key) == find_header(store@.subrange(0, i as int), key),
        decreases i,
    {
        proof {
            assert(store@.subrange(0, i as int).drop_last() =~= store@.subrange(0, i as int - 1));
        }
        if store[i - 1].height == key {
            return Some(store[i - 1]);
        }
        i = i - 1;
    }
    None
}

fn fetch_headers(store: &Vec<BlockHeader>, keys: &Vec<u64>) -> (r: Vec<BlockHeader>)
    ensures
        r@ == fetched_headers(store@, keys@),
{
    let mut out: Vec<BlockHeader> = Vec::new();
    let mut i: usize = 0;
    while i < keys.len()
        invariant
            i <= keys@.len(),
            out@ == fetched_headers(store@, keys@.subrange(0, i as int)),
        decreases keys@.len() - i,
    {
        proof {
            assert(keys@.subrange(0, i as int + 1).drop_last() =~= keys@.subrange(0, i as int));
        }
        match lookup_header(store, keys[i]) {
            Some(x) => out.push(x),
            None => {},
        }
        i = i + 1;
    }
    proof {
        assert(keys@.subrange(0, keys@.len() as int) =~= keys@);
    }
    out
}

fn lookup_utxo(store: &Vec<TransactionOutput>, key: HashOutput) -> (r: Option<TransactionOutput>)
    ensures
        r == find_utxo(store@, key),
{
    let mut i: usize = store.len();
    proof {
        assert(store@.subrange(0, store@.len() as int) =~= store@);
    }
    while i > 0
        invariant
            i <= store@.len(),
            find_utxo(store@, key) == find_utxo(store@.subrange(0, i as int), key),
        decreases i,
    {
        proof {
            assert(store@.subrange(0, i as int).drop_last() =~= store@.subrange(0, i as int - 1));
        }
        if hash_eq(&store[i - 1].hash, &key) {
            return Some(store[i - 1]);
        }
        i = i - 1;
    }
    None
}

fn fetch_utxos(store: &Vec<TransactionOutput>, keys: &Vec<HashOutput>) -> (r: Vec<TransactionOutput>)
    ensures
        r@ == fetched_utxos(store@, keys@),
{
    let mut out: Vec<TransactionOutput> = Vec::new();
    let mut i: usize = 0;
    while i < keys.len()
        invariant
            i <= keys@.len(),
            out@ == fetched_utxos(store@, keys@.subrange(0, i as int)),
        decreases keys@.len() - i,
    {
        proof {
            assert(keys@.subrange(0, i as int + 1).drop_last() =~= keys@.subrange(0, i as int));
        }
        match lookup_utxo(store, keys[i]) {
            Some(x) => out.push(x),
            None => {},
        }
        i = i + 1;
    }
    proof {
        assert(keys@.subrange(0, keys@.len() as int) =~= keys@);
    }
    out
}

fn lookup_block(store: &Vec<HistoricalBlock>, key: u64) -> (r: Option<HistoricalBlock>)
    ensures
        r == find_block(store@, key),
{
    let mut i: usize = store.len();
    proof {
        assert(store@.subrange(0, store@.len() as int) =~= store@);
    }
    while i > 0
        invariant
            i <= store@.len(),
            find_block(store@, key) == find_block(store@.subrange(0, i as int), key),
        decreases i,
    {
        proof {
            assert(store@.subrange(0, i as int).drop_last() =~= store@.subrange(0, i as int - 1));
        }
        if store[i - 1].header.height == key {
            return Some(store[i - 1]);
        }
        i = i - 1;
    }
    None
}

fn fetch_blocks(store: &Vec<HistoricalBlock>, keys: &Vec<u64>) -> (r: Vec<HistoricalBlock>)
    ensures
        r@ == fetched_blocks(store@, keys@),
{
    let mut out: Vec<HistoricalBlock> = Vec::new();
    let mut i: usize = 0;
    while i < keys.len()
        invariant
            i <= keys@.len(),
            out@ == fetched_blocks(store@, keys@.subrange(0, i as int)),
        decreases keys@.len() - i,
    {
        proof {
            assert(keys@.subrange(0, i as int + 1).drop_last() =~= keys@.subrange(0, i as int));
        }
        match lookup_block(store, keys[i]) {
            Some(x) => out.push(x),
            None => {},
        }
        i = i + 1;
    }
    proof {
        assert(keys@.subrange(0, keys@.len() as int) =~= keys@);
    }
    out
}

proof fn lemma_find_kernel_none(store: Seq<TransactionKernel>, key: HashOutput)
    ensures
        find_kernel(store, key) is None <==> forall|i: int| 0 <= i < store.len() ==> store[i].hash != key,
    decreases store.len(),
{
    if store.len() > 0 {
        lemma_find_kernel_none(store.drop_last(), key);
        assert forall|i: int| 0 <= i < store.len() - 1 implies store.drop_last()[i] == store[i] by {}
    }
}

proof fn lemma_find_header_none(store: Seq<BlockHeader>, key: u64)
    ensures
        find_header(store, key) is None <==> forall|i: int| 0 <= i < store.len() ==> store[i].height != key,
    decreases store.len(),
{
    if store.len() > 0 {
        lemma_find_header_none(store.drop_last(), key);
        assert forall|i: int| 0 <= i < store.len() - 1 implies store.drop_last()[i] == store[i] by {}
    }
}

proof fn lemma_find_utxo_none(store: Seq<TransactionOutput>, key: HashOutput)
    ensures
        find_utxo(store, key) is None <==> forall|i: int| 0 <= i < store.len() ==> store[i].hash != key,
    decreases store.len(),
{
    if store.len() > 0 {
        lemma_find_utxo_none(store.drop_last(), key);
        assert forall|i: int| 0 <= i < store.len() - 1 implies store.drop_last()[i] == store[i] by {}
    }
}

proof fn lemma_find_block_none(store: Seq<HistoricalBlock>, key: u64)
    ensures
        find_block(store, key) is None <==> forall|i: int| 0 <= i < store.len() ==> store[i].header.height != key,
    decreases store.len(),
{
    if store.len() > 0 {
        lemma_find_block_none(store.drop_last(), key);
        assert forall|i: int| 0 <= i < store.len() - 1 implies store.drop_last()[i] == store[i] by {}
    }
}

proof fn lemma_find_kernel_unique(store: Seq<TransactionKernel>, i: int)
    requires
        unique_kernels(store),
        0 <= i < store.len(),
    ensures
        find_kernel(store, store[i].hash) == Some(store[i]),
    decreases store.len(),
{
    if i < store.len() - 1 {
        let d = store.drop_last();
        assert(unique_kernels(d));
        assert(d[i] == store[i]);
        lemma_find_kernel_unique(d, i);
    }
}

/// Asking twice for the same kernel hash, on a store whose kernel hashes are
/// unique, both times yields exactly that one kernel: never a copy, never a
/// different one.
pub proof fn lemma_repeated_kernel_query(store: Seq<TransactionKernel>, i: int)
    requires
        unique_kernels(store),
        0 <= i < store.len(),
    ensures
        fetched_kernels(store, seq![store[i].hash]) == seq![store[i]],
        fetched_kernels(store, seq![store[i].hash, store[i].hash]) == seq![store[i], store[i]],
{
    lemma_find_kernel_unique(store, i);
    let one = seq![store[i].hash];
    let two = seq![store[i].hash, store[i].hash];
    assert(one.drop_last() =~= Seq::<HashOutput>::empty());
    assert(two.drop_last() =~= one);
    assert(fetched_kernels(store, one.drop_last()) == Seq::<TransactionKernel>::empty());
    assert(fetched_kernels(store, one) =~= seq![store[i]]);
    assert(fetched_kernels(store, two.drop_last()) == seq![store[i]]);
    assert(fetched_kernels(store, two) =~= seq![store[i], store[i]]);
}

/// Metadata of a chain that holds no block yet.
pub open spec fn empty_metadata() -> ChainMetadata {
    ChainMetadata {
        height_of_longest_chain: None,
        best_block: None,
        total_accumulated_difficulty: 0,
        pruning_horizon: 0,
    }
}

/// An in-memory chain store, keyed by kernel and output hash and by height.
pub struct BlockchainDatabase {
    metadata: ChainMetadata,
    kernels: Vec<TransactionKernel>,
    headers: Vec<BlockHeader>,
    utxos: Vec<TransactionOutput>,
    blocks: Vec<HistoricalBlock>,
}

impl BlockchainDatabase {
    pub closed spec fn metadata(&self) -> ChainMetadata {
        self.metadata
    }

    pub closed spec fn kernel_store(&self) -> Seq<TransactionKernel> {
        self.kernels@
    }

    pub closed spec fn header_store(&self) -> Seq<BlockHeader> {
        self.headers@
    }

    pub closed spec fn utxo_store(&self) -> Seq<TransactionOutput> {
        self.utxos@
    }

    pub closed spec fn block_store(&self) -> Seq<HistoricalBlock> {
        self.blocks@
    }

    /// Every item is stored once under its key.
    pub open spec fn wf(&self) -> bool {
        &&& unique_kernels(self.kernel_store())
        &&& unique_headers(self.header_store())
        &&& unique_utxos(self.utxo_store())
        &&& unique_blocks(self.block_store())
    }

    /// An empty chain.
    pub fn new() -> (db: BlockchainDatabase)
        ensures
            db.wf(),
            db.metadata() == empty_metadata(),
            db.kernel_store() == Seq::<TransactionKernel>::empty(),
            db.header_store() == Seq::<BlockHeader>::empty(),
            db.utxo_store() == Seq::<TransactionOutput>::empty(),
            db.block_store() == Seq::<HistoricalBlock>::empty(),
    {
        BlockchainDatabase {
            metadata: ChainMetadata {
                height_of_longest_chain: None,
                best_block: None,
                total_accumulated_difficulty: 0,
                pruning_horizon: 0,
            },
            kernels: Vec::new(),
            headers: Vec::new(),
            utxos: Vec::new(),
            blocks: Vec::new(),
        }
    }

    /// Replaces the chain metadata.
    pub fn set_metadata(&mut self, m: ChainMetadata)
        requires
            old(self).wf(),
        ensures
            final(self).wf(),
            final(self).metadata() == m,
            final(self).kernel_store() == old(self).kernel_store(),
            final(self).header_store() == old(self).header_store(),
            final(self).utxo_store() == old(self).utxo_store(),
            final(self).block_store() == old(self).block_store(),
    {
        self.metadata = m;
    }

    /// Stores `x` unless an item with its key is already stored; says whether
    /// it was added.
    pub fn insert_kernel(&mut self, x: TransactionKernel) -> (added: bool)
        requires
            old(self).wf(),
        ensures
            final(self).wf(),
            added == find_kernel(old(self).kernel_store(), x.hash) is None,
            added ==> final(self).kernel_store() == old(self).kernel_store().push(x),
            !added ==> final(self).kernel_store() == old(self).kernel_store(),
            final(self).metadata() == old(self).metadata(),
            final(self).header_store() == old(self).header_store(),
            final(self).utxo_store() == old(self).utxo_store(),
            final(self).block_store() == old(self).block_store(),
    {
        if lookup_kernel(&self.kernels, x.hash).is_some() {
            return false;
        }
        proof {
            lemma_find_kernel_none(self.kernels@, x.hash);
        }
        self.kernels.push(x);
        true
    }

    /// Stores `x` unless an item with its key is already stored; says whether
    /// it was added.
    pub fn insert_header(&mut self, x: BlockHeader) -> (added: bool)
        requires
            old(self).wf(),
        ensures
            final(self).wf(),
            added == find_header(old(self).header_store(), x.height) is None,
            added ==> final(self).header_store() == old(self).header_store().push(x),
            !added ==> final(self).header_store() == old(self).header_store(),
            final(self).metadata() == old(self).metadata(),
            final(self).kernel_store() == old(self).kernel_store(),
            final(self).utxo_store() == old(self).utxo_store(),
            final(self).block_store() == old(self).block_store(),
    {
        if lookup_header(&self.headers, x.height).is_some() {
            return false;
        }
        proof {
            lemma_find_header_none(self.headers@, x.height);
        }
        self.headers.push(x);
        true
    }

    /// Stores `x` unless an item with its key is already stored; says whether
    /// it was added.
    pub fn insert_utxo(&mut self, x: TransactionOutput) -> (added: bool)
        requires
            old(self).wf(),
        ensures
            final(self).wf(),
            added == find_utxo(old(self).utxo_store(), x.hash) is None,
            added ==> final(self).utxo_store() == old(self).utxo_store().push(x),
            !added ==> final(self).utxo_store() == old(self).utxo_store(),
            final(self).metadata() == old(self).metadata(),
            final(self).kernel_store() == old(self).kernel_store(),
            final(self).header_store() == old(self).header_store(),
            final(self).block_store() == old(self).block_store(),
    {
        if lookup_utxo(&self.utxos, x.hash).is_some() {
            return false;
        }
        proof {
            lemma_find_utxo_none(self.utxos@, x.hash);
        }
        self.utxos.push(x);
        true
    }

    /// Stores `x` unless an item with its key is already stored; says whether
    /// it was added.
    pub fn insert_block(&mut self, x: HistoricalBlock) -> (added: bool)
        requires
            old(self).wf(),
        ensures
            final(self).wf(),
            added == find_block(old(self).block_store(), x.header.height) is None,
            added ==> final(self).block_store() == old(self).block_store().push(x),
            !added ==> final(self).block_store() == old(self).block_store(),
            final(self).metadata() == old(self).metadata(),
            final(self).kernel_store() == old(self).kernel_store(),
            final(self).header_store() == old(self).header_store(),
            final(self).utxo_store() == old(self).utxo_store(),
    {
        if lookup_block(&self.blocks, x.header.height).is_some() {
            return false;
        }
        proof {
            lemma_find_block_none(self.blocks@, x.header.height);
        }
        self.blocks.push(x);
        true
    }

    /// Answers one query from the stored chain.
    pub fn handle_request(&self, req: &NodeCommsRequest) -> (r: Result<NodeCommsResponse, CommsInterfaceError>)
        ensures
            match (req, r) {
                (NodeCommsRequest::GetChainMetadata, Ok(NodeCommsResponse::ChainMetadata(m))) => m
                    == self.metadata(),
                (NodeCommsRequest::FetchKernels(ks), Ok(NodeCommsResponse::TransactionKernels(v))) => v@
                    == fetched_kernels(self.kernel_store(), ks@),
                (NodeCommsRequest::FetchHeaders(hs), Ok(NodeCommsResponse::BlockHeaders(v))) => v@
                    == fetched_headers(self.header_store(), hs@),
                (NodeCommsRequest::FetchUtxos(ks), Ok(NodeCommsResponse::TransactionOutputs(v))) => v@
                    == fetched_utxos(self.utxo_store(), ks@),
                (NodeCommsRequest::FetchBlocks(hs), Ok(NodeCommsResponse::HistoricalBlocks(v))) => v@
                    == fetched_blocks(self.block_store(), hs@),
                _ => false,
            },
    {
        match req {
            NodeCommsRequest::GetChainMetadata => Ok(NodeCommsResponse::ChainMetadata(self.metadata)),
            NodeCommsRequest::FetchKernels(ks) => Ok(NodeCommsResponse::TransactionKernels(fetch_kernels(&self.kernels, ks))),
            NodeCommsRequest::FetchHeaders(hs) => Ok(NodeCommsResponse::BlockHeaders(fetch_headers(&self.headers, hs))),
            NodeCommsRequest::FetchUtxos(ks) => Ok(NodeCommsResponse::TransactionOutputs(fetch_utxos(&self.utxos, ks))),
            NodeCommsRequest::FetchBlocks(hs) => Ok(NodeCommsResponse::HistoricalBlocks(fetch_blocks(&self.blocks, hs))),
        }
    }
}

fn append_copies<T: Copy>(out: &mut Vec<T>, v: &Vec<T>)
    ensures
        final(out)@ == old(out)@ + v@,
{
    let mut i: usize = 0;
    while i < v.len()
        invariant
            i <= v@.len(),
            out@ == old(out)@ + v@.subrange(0, i as int),
        decreases v@.len() - i,
    {
        proof {
            assert(v@.subrange(0, i as int + 1) =~= v@.subrange(0, i as int).push(v@[i as int]));
        }
        out.push(v[i]);
        i = i + 1;
    }
    proof {
        assert(v@.subrange(0, v@.len() as int) =~= v@);
    }
}

/// Every response is of the `ChainMetadata` kind.
pub open spec fn all_metadata(rs: Seq<NodeCommsResponse>) -> bool {
    forall|i: int| 0 <= i < rs.len() ==> rs[i] is ChainMetadata
}

/// The chain metadata carried by the responses, in order.
pub open spec fn metadata_of(rs: Seq<NodeCommsResponse>) -> Seq<ChainMetadata>
    decreases rs.len(),
{
    if rs.len() == 0 {
        Seq::empty()
    } else {
        let prev = metadata_of(rs.drop_last());
        match rs.last() {
            NodeCommsResponse::ChainMetadata(x) => prev.push(x),
            _ => prev,
        }
    }
}

/// Gathers the chain metadata from the responses to one query; a response of any other
/// kind makes the whole answer unexpected.
pub fn collect_metadata(responses: &Vec<NodeCommsResponse>) -> (r: Result<Vec<ChainMetadata>, CommsInterfaceError>)
    ensures
        match r {
            Ok(v) => all_metadata(responses@) && v@ == metadata_of(responses@),
            Err(e) => !all_metadata(responses@) && e == CommsInterfaceError::UnexpectedApiResponse,
        },
{
    let mut out: Vec<ChainMetadata> = Vec::new();
    let mut i: usize = 0;
    while i < responses.len()
        invariant
            i <= responses@.len(),
            forall|j: int| 0 <= j < i ==> responses@[j] is ChainMetadata,
            out@ == metadata_of(responses@.subrange(0, i as int)),
        decreases responses@.len() - i,
    {
        proof {
            assert(responses@.subrange(0, i as int + 1).drop_last() =~= responses@.subrange(0, i as int));
        }
        match &responses[i] {
            NodeCommsResponse::ChainMetadata(x) => {
                out.push(*x);
            },
            _ => {
                return Err(CommsInterfaceError::UnexpectedApiResponse);
            },
        }
        i = i + 1;
    }
    proof {
        assert(responses@.subrange(0, responses@.len() as int) =~= responses@);
    }
    Ok(out)
}

/// Every response is of the `TransactionKernels` kind.
pub open spec fn all_kernels(rs: Seq<NodeCommsResponse>) -> bool {
    forall|i: int| 0 <= i < rs.len() ==> rs[i] is TransactionKernels
}

/// The kernels carried by the responses, in order.
pub open spec fn kernels_of(rs: Seq<NodeCommsResponse>) -> Seq<TransactionKernel>
    decreases rs.len(),
{
    if rs.len() == 0 {
        Seq::empty()
    } else {
        let prev = kernels_of(rs.drop_last());
        match rs.last() {
            NodeCommsResponse::TransactionKernels(x) => prev + x@,
            _ => prev,
        }
    }
}

/// Gathers the kernels from the responses to one query; a response of any other
/// kind makes the whole answer unexpected.
pub fn collect_kernels(responses: &Vec<NodeCommsResponse>) -> (r: Result<Vec<TransactionKernel>, CommsInterfaceError>)
    ensures
        match r {
            Ok(v) => all_kernels(responses@) && v@ == kernels_of(responses@),
            Err(e) => !all_kernels(responses@) && e == CommsInterfaceError::UnexpectedApiResponse,
        },
{
    let mut out: Vec<TransactionKernel> = Vec::new();
    let mut i: usize = 0;
    while i < responses.len()
        invariant
            i <= responses@.len(),
            forall|j: int| 0 <= j < i ==> responses@[j] is TransactionKernels,
            out@ == kernels_of(responses@.subrange(0, i as int)),
        decreases responses@.len() - i,
    {
        proof {
            assert(responses@.subrange(0, i as int + 1).drop_last() =~= responses@.subrange(0, i as int));
        }
        match &responses[i] {
            NodeCommsResponse::TransactionKernels(x) => {
                append_copies(&mut out, x);
            },
            _ => {
                return Err(CommsInterfaceError::UnexpectedApiResponse);
            },
        }
        i = i + 1;
    }
    proof {
        assert(responses@.subrange(0, responses@.len() as int) =~= responses@);
    }
    Ok(out)
}

/// Every response is of the `BlockHeaders` kind.
pub open spec fn all_headers(rs: Seq<NodeCommsResponse>) -> bool {
    forall|i: int| 0 <= i < rs.len() ==> rs[i] is BlockHeaders
}

/// The headers carried by the responses, in order.
pub open spec fn headers_of(rs: Seq<NodeCommsResponse>) -> Seq<BlockHeader>
    decreases rs.len(),
{
    if rs.len() == 0 {
        Seq::empty()
    } else {
        let prev = headers_of(rs.drop_last());
        match rs.last() {
            NodeCommsResponse::BlockHeaders(x) => prev + x@,
            _ => prev,
        }
    }
}

/// Gathers the headers from the responses to one query; a response of any other
/// kind makes the whole answer unexpected.
pub fn collect_headers(responses: &Vec<NodeCommsResponse>) -> (r: Result<Vec<BlockHeader>, CommsInterfaceError>)
    ensures
        match r {
            Ok(v) => all_headers(responses@) && v@ == headers_of(responses@),
            Err(e) => !all_headers(responses@) && e == CommsInterfaceError::UnexpectedApiResponse,
        },
{
    let mut out: Vec<BlockHeader> = Vec::new();
    let mut i: usize = 0;
    while i < responses.len()
        invariant
            i <= responses@.len(),
            forall|j: int| 0 <= j < i ==> responses@[j] is BlockHeaders,
            out@ == headers_of(responses@.subrange(0, i as int)),
        decreases responses@.len() - i,
    {
        proof {
            assert(responses@.subrange(0, i as int + 1).drop_last() =~= responses@.subrange(0, i as int));
        }
        match &responses[i] {
            NodeCommsResponse::BlockHeaders(x) => {
                append_copies(&mut out, x);
            },
            _ => {
                return Err(CommsInterfaceError::UnexpectedApiResponse);
            },
        }
        i = i + 1;
    }
    proof {
        assert(responses@.subrange(0, responses@.len() as int) =~= responses@);
    }
    Ok(out)
}

/// Every response is of the `TransactionOutputs` kind.
pub open spec fn all_utxos(rs: Seq<NodeCommsResponse>) -> bool {
    forall|i: int| 0 <= i < rs.len() ==> rs[i] is TransactionOutputs
}

/// The utxos carried by the responses, in order.
pub open spec fn utxos_of(rs: Seq<NodeCommsResponse>) -> Seq<TransactionOutput>
    decreases rs.len(),
{
    if rs.len() == 0 {
        Seq::empty()
    } else {
        let prev = utxos_of(rs.drop_last());
        match rs.last() {
            NodeCommsResponse::TransactionOutputs(x) => prev + x@,
            _ => prev,
        }
    }
}

/// Gathers the utxos from the responses to one query; a response of any other
/// kind makes the whole answer unexpected.
pub fn collect_utxos(responses: &Vec<NodeCommsResponse>) -> (r: Result<Vec<TransactionOutput>, CommsInterfaceError>)
    ensures
        match r {
            Ok(v) => all_utxos(responses@) && v@ == utxos_of(responses@),
            Err(e) => !all_utxos(responses@) && e == CommsInterfaceError::UnexpectedApiResponse,
        },
{
    let mut out: Vec<TransactionOutput> = Vec::new();
    let mut i: usize = 0;
    while i < responses.len()
        invariant
            i <= responses@.len(),
            forall|j: int| 0 <= j < i ==> responses@[j] is TransactionOutputs,
            out@ == utxos_of(responses@.subrange(0, i as int)),
        decreases responses@.len() - i,
    {
        proof {
            assert(responses@.subrange(0, i as int + 1).drop_last() =~= responses@.subrange(0, i as int));
        }
        match &responses[i] {
            NodeCommsResponse::TransactionOutputs(x) => {
                append_copies(&mut out, x);
            },
            _ => {
                return Err(CommsInterfaceError::UnexpectedApiResponse);
            },
        }
        i = i + 1;
    }
    proof {
        assert(responses@.subrange(0, responses@.len() as int) =~= responses@);
    }
    Ok(out)
}

/// Every response is of the `HistoricalBlocks` kind.
pub open spec fn all_blocks(rs: Seq<NodeCommsResponse>) -> bool {
    forall|i: int| 0 <= i < rs.len() ==> rs[i] is HistoricalBlocks
}

/// The blocks carried by the responses, in order.
pub open spec fn blocks_of(rs: Seq<NodeCommsResponse>) -> Seq<HistoricalBlock>
    decreases rs.len(),
{
    if rs.len() == 0 {
        Seq::empty()
    } else {
        let prev = blocks_of(rs.drop_last());
        match rs.last() {
            NodeCommsResponse::HistoricalBlocks(x) => prev + x@,
            _ => prev,
        }
    }
}

/// Gathers the blocks from the responses to one query; a response of any other
/// kind makes the whole answer unexpected.
pub fn collect_blocks(responses: &Vec<NodeCommsResponse>) -> (r: Result<Vec<HistoricalBlock>, CommsInterfaceError>)
    ensures
        match r {
            Ok(v) => all_blocks(responses@) && v@ == blocks_of(responses@),
            Err(e) => !all_blocks(responses@) && e == CommsInterfaceError::UnexpectedApiResponse,
        },
{
    let mut out: Vec<HistoricalBlock> = Vec::new();
    let mut i: usize = 0;
    while i < responses.len()
        invariant
            i <= responses@.len(),
            forall|j: int| 0 <= j < i ==> responses@[j] is HistoricalBlocks,
            out@ == blocks_of(responses@.subrange(0, i as int)),
        decreases responses@.len() - i,
    {
        proof {
            assert(responses@.subrange(0, i as int + 1).drop_last() =~= responses@.subrange(0, i as int));
        }
        match &responses[i] {
            NodeCommsResponse::HistoricalBlocks(x) => {
                append_copies(&mut out, x);
            },
            _ => {
                return Err(CommsInterfaceError::UnexpectedApiResponse);
            },
        }
        i = i + 1;
    }
    proof {
        assert(responses@.subrange(0, responses@.len() as int) =~= responses@);
    }
    Ok(out)
}

} // verus!
