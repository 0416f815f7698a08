use vstd::prelude::*;
use vstd::string::StringSliceAdditionalSpecFns;
use crate::checkpoint::{
    byte_views, headers_body, headers_checkpoint_body, headers_checkpoint_key, headers_key,
    quoted_hex, update_checkpoint_body, update_checkpoint_key, update_key,
};
use crate::codec::{
    borsh_bool, borsh_hash, borsh_read_bool, borsh_read_hash, borsh_str, borsh_u32, borsh_u64,
    json_string, json_string_of, le_bytes, push_all, sized_bytes,
};
use crate::period::{derive_period, period_of, seed_last_period, seeded_period_of};
use crate::transaction::{
    call_views, spec_next_nonce, build_transaction, MethodCall, UnsignedTransaction, GAS_PER_CALL,
    REGISTRATION_DEPOSIT,
};

verus! {

/// History of accepted headers that the client contract keeps.
pub const HASHES_GC_THRESHOLD: u64 = 51000;

/// Most headers that one account may have submitted and not yet finalised.
pub const MAX_SUBMITTED_BLOCKS_BY_ACCOUNT: u32 = 8000;

/// How a header batch is sent: one transaction holding every header, whose calls the ledger
/// executes all or none, or one transaction per header, each with its own nonce.
#[derive(Clone, Copy, Debug, PartialEq, Eq, Structural)]
pub enum SubmissionMode {
    AtomicBatch,
    Sequential,
}

/// How far synchronisation has progressed.
#[derive(Clone, Copy, Debug, PartialEq, Eq, Structural)]
pub struct SyncState {
    pub last_slot: u64,
    pub last_period: u64,
}

/// Where the submission in flight stands.
#[derive(Clone, Copy, Debug, PartialEq, Eq, Structural)]
pub enum Stage {
    Idle,
    Persisting,
    AwaitingNonce,
    AwaitingCommit,
}

/// What a confirmed submission advances.
#[derive(Clone, Copy, Debug, PartialEq, Eq, Structural)]
pub enum Target {
    Headers { end_slot: u64 },
    Update { period: u64 },
    Other,
}

/// Why a transaction did not commit.
#[derive(Debug, PartialEq, Eq)]
pub enum Failure {
    Rpc,
    NonceConflict,
    Rejected(String),
}

/// What the caller reports after performing an action.
#[derive(Debug)]
pub enum Event {
    Persisted,
    PersistFailed,
    NonceObserved { nonce: u64, block_hash: [u8; 32] },
    Committed,
    Failed(Failure),
}

/// The errors of the gateway.
#[derive(Debug, PartialEq, Eq)]
pub enum RelayError {
    Busy,
    Persistence,
    Rpc,
    NonceConflict,
    ChainRejection(String),
    NonceExhausted,
    Consistency,
    Decode,
    ArgumentTooLong,
    UnexpectedEvent,
}

/// What the caller is to do next.
#[derive(Debug)]
pub enum Action {
    /// Store `body` durably under `key`, then report `Persisted` or `PersistFailed`.
    Persist { key: Vec<u8>, body: Vec<u8> },
    /// Query the signer's access key, then report `NonceObserved` or `Failed`.
    QueryNonce,
    /// Sign, broadcast and await the transaction, then report `Committed` or `Failed`.
    Broadcast(UnsignedTransaction),
    /// The operation is over.
    Finished(Result<(), RelayError>),
}

/// A read-only method call on the client contract.
#[derive(Debug)]
pub struct ViewCall {
    pub receiver_id: String,
    pub method_name: String,
    pub args: Vec<u8>,
}

/// The error that a failed transaction surfaces as.
pub open spec fn error_of(f: Failure) -> RelayError {
    match f {
        Failure::Rpc => RelayError::Rpc,
        Failure::NonceConflict => RelayError::NonceConflict,
        Failure::Rejected(s) => RelayError::ChainRejection(s),
    }
}

/// The sync state once a submission aimed at `t` has committed.
pub open spec fn advanced(s: SyncState, t: Target) -> SyncState {
    match t {
        Target::Headers { end_slot } => SyncState { last_slot: end_slot, ..s },
        Target::Update { period } => SyncState { last_period: period, ..s },
        Target::Other => s,
    }
}

/// Whether `e` is an event that a submission at `stage` can receive.
pub open spec fn expected(stage: Stage, e: Event) -> bool {
    ||| e is Failed
    ||| stage is Persisting && (e is Persisted || e is PersistFailed)
    ||| stage is AwaitingNonce && e is NonceObserved
    ||| stage is AwaitingCommit && e is Committed
}

/// Whether a header batch for `start..=end` may be submitted from `s`: the range is in
/// order and the last submitted slot does not move back.
pub open spec fn headers_consistent(s: SyncState, start: u64, end: u64) -> bool {
    start <= end && s.last_slot <= end
}

/// Whether an update for `period` may be submitted from `s`: it covers the period right
/// after the last proven one, and that is at most one past the period of the last slot.
pub open spec fn update_consistent(s: SyncState, period: u64) -> bool {
    period == s.last_period + 1 && period <= period_of(s.last_slot as nat) + 1
}

/// The call that submits one execution header.
pub open spec fn header_call(h: Seq<u8>) -> (Seq<char>, Seq<u8>, u64, u128) {
    ("submit_header"@, h, GAS_PER_CALL, 0u128)
}

/// The arguments of a submitter registration.
pub open spec fn register_args(account_id: Seq<char>) -> Seq<u8> {
    "{\"account_id\":".spec_bytes() + json_string_of(account_id) + "}".spec_bytes()
}

/// The binary arguments of the contract's initialisation: the network name, the four
/// encoded genesis values, then the fixed protocol parameters, no trusted signer.
pub open spec fn init_args(
    network: Seq<u8>,
    execution_header: Seq<u8>,
    beacon_header: Seq<u8>,
    current_committee: Seq<u8>,
    next_committee: Seq<u8>,
    verify_bls_signatures: bool,
) -> Seq<u8> {
    sized_bytes(network) + execution_header + beacon_header + current_committee + next_committee
        + seq![1u8] + seq![if verify_bls_signatures { 1u8 } else { 0u8 }]
        + le_bytes(HASHES_GC_THRESHOLD as nat, 8) + le_bytes(MAX_SUBMITTED_BLOCKS_BY_ACCOUNT as nat, 4)
        + seq![0u8]
}

/// An empty JSON object.
pub open spec fn empty_object() -> Seq<u8> {
    seq![123u8, 125u8]
}

/// Maps a transaction failure to the gateway's error.
fn failure_error(f: Failure) -> (r: RelayError)
    ensures
        r == error_of(f),
{
    match f {
        Failure::Rpc => RelayError::Rpc,
        Failure::NonceConflict => RelayError::NonceConflict,
        Failure::Rejected(s) => RelayError::ChainRejection(s),
    }
}

/// A fresh copy of a byte string.
fn copy_bytes(b: &Vec<u8>) -> (r: Vec<u8>)
    ensures
        r@ == b@,
{
    let mut out: Vec<u8> = Vec::new();
    push_all(&mut out, b.as_slice());
    assert(out@ =~= b@);
    out
}

/// Whether two hashes are equal.
fn same_hash(a: &[u8; 32], b: &[u8; 32]) -> (r: bool)
    ensures
        r == (a@ == b@),
{
    let mut i: usize = 0;
    while i < 32
        invariant
            i <= 32,
            a@.len() == 32,
            b@.len() == 32,
            a@.subrange(0, i as int) == b@.subrange(0, i as int),
        decreases 32 - i,
    {
        if a[i] != b[i] {
            assert(a@[i as int] != b@[i as int]);
            return false;
        }
        assert(a@.subrange(0, i + 1) =~= a@.subrange(0, i as int).push(a@[i as int]));
        assert(b@.subrange(0, i + 1) =~= b@.subrange(0, i as int).push(b@[i as int]));
        i = i + 1;
    }
    assert(a@ =~= a@.subrange(0, 32));
    assert(b@ =~= b@.subrange(0, 32));
    true
}

/// The submission gateway of the light-client relay: it turns registration, initialisation,
/// header batches and light-client updates into checkpoints and transactions, one operation
/// at a time, and tracks how far synchronisation has progressed.
pub struct EthClientContract {
    pub sync: SyncState,
    pub contract_account: String,
    pub account_id: String,
    pub mode: SubmissionMode,
    pub stage: Stage,
    pub target: Target,
    /// The calls of the submission in flight that have not been broadcast yet.
    pub queue: Vec<MethodCall>,
}

impl EthClientContract {
    /// Whether no submission is in flight.
    pub open spec fn is_idle(&self) -> bool {
        &&& self.stage is Idle
        &&& self.queue@.len() == 0
        &&& self.target is Other
    }

    /// Whether two gateways serve the same accounts in the same mode.
    pub open spec fn same_identity(&self, o: &Self) -> bool {
        &&& self.contract_account@ == o.contract_account@
        &&& self.account_id@ == o.account_id@
        &&& self.mode == o.mode
    }

    /// A gateway for the client contract `contract_account_id`, submitting as `account_id`,
    /// whose headers are known up to `last_slot`.
    pub fn new(contract_account_id: String, account_id: String, last_slot: u64, mode: SubmissionMode) -> (r: Self)
        ensures
            r.is_idle(),
            r.contract_account@ == contract_account_id@,
            r.account_id@ == account_id@,
            r.mode == mode,
            r.sync.last_slot == last_slot,
            r.sync.last_period as nat == seeded_period_of(last_slot as nat),
    {
        EthClientContract {
            sync: SyncState { last_slot, last_period: seed_last_period(last_slot) },
            contract_account: contract_account_id,
            account_id,
            mode,
            stage: Stage::Idle,
            target: Target::Other,
            queue: Vec::new(),
        }
    }

    pub fn get_last_submitted_slot(&self) -> (r: u64)
        ensures
            r == self.sync.last_slot,
    {
        self.sync.last_slot
    }

    pub fn get_last_period(&self) -> (r: u64)
        ensures
            r == self.sync.last_period,
    {
        self.sync.last_period
    }

    pub fn sync_state(&self) -> (r: SyncState)
        ensures
            r == self.sync,
    {
        self.sync
    }

    pub fn mode(&self) -> (r: SubmissionMode)
        ensures
            r == self.mode,
    {
        self.mode
    }

    /// Drops the submission in flight and reports `e`.
    fn abort(&mut self, e: RelayError) -> (r: Action)
        ensures
            final(self).is_idle(),
            final(self).same_identity(old(self)),
            final(self).sync == old(self).sync,
            r == Action::Finished(Err(e)),
    {
        self.stage = Stage::Idle;
        self.target = Target::Other;
        self.queue = Vec::new();
        Action::Finished(Err(e))
    }

    /// Starts a submission of `calls` aimed at `target`, stored first as `checkpoint` if given.
    fn begin(&mut self, calls: Vec<MethodCall>, target: Target, checkpoint: Option<(Vec<u8>, Vec<u8>)>) -> (r: Action)
        ensures
            final(self).same_identity(old(self)),
            final(self).sync == old(self).sync,
            final(self).queue@ == calls@,
            final(self).target == target,
            checkpoint matches Some((key, body)) ==> final(self).stage is Persisting && r == (Action::Persist { key, body }),
            checkpoint is None ==> final(self).stage is AwaitingNonce && r is QueryNonce,
    {
        self.queue = calls;
        self.target = target;
        match checkpoint {
            Some((key, body)) => {
                self.stage = Stage::Persisting;
                Action::Persist { key, body }
            },
            None => {
                self.stage = Stage::AwaitingNonce;
                Action::QueryNonce
            },
        }
    }

    /// Starts the submission of a batch of encoded execution headers for the slots
    /// `start_slot..=end_slot`, one `submit_header` call per header in batch order. The batch
    /// is stored first; the last submitted slot becomes `end_slot` once it has committed. An
    /// empty batch is done at once and changes nothing. A range out of order, or one that would
    /// move the last submitted slot back, is refused.
    pub fn send_headers(&mut self, headers: &Vec<Vec<u8>>, start_slot: u64, end_slot: u64) -> (r: Action)
        ensures
            headers@.len() == 0 ==> *final(self) == *old(self) && r == Action::Finished(Ok(())),
            headers@.len() > 0 && !(old(self).stage is Idle) ==> *final(self) == *old(self) && r
                == Action::Finished(Err(RelayError::Busy)),
            headers@.len() > 0 && old(self).stage is Idle && !headers_consistent(
                old(self).sync,
                start_slot,
                end_slot,
            ) ==> *final(self) == *old(self) && r == Action::Finished(Err(RelayError::Consistency)),
            headers@.len() > 0 && old(self).stage is Idle && headers_consistent(
                old(self).sync,
                start_slot,
                end_slot,
            ) ==> {
                &&& final(self).same_identity(old(self))
                &&& final(self).sync == old(self).sync
                &&& final(self).stage is Persisting
                &&& final(self).target == (Target::Headers { end_slot })
                &&& final(self).queue@.len() == headers@.len()
                &&& call_views(final(self).queue@) == byte_views(headers@).map_values(
                    |h: Seq<u8>| header_call(h),
                )
                &&& r matches Action::Persist { key, body }
                &&& key@ == headers_key(start_slot as nat, end_slot as nat)
                &&& body@ == headers_body(byte_views(headers@))
            },
    {
        if headers.len() == 0 {
            return Action::Finished(Ok(()));
        }
        if self.stage != Stage::Idle {
            return Action::Finished(Err(RelayError::Busy));
        }
        if start_slot > end_slot || end_slot < self.sync.last_slot {
            return Action::Finished(Err(RelayError::Consistency));
        }
        let mut calls: Vec<MethodCall> = Vec::new();
        let mut i: usize = 0;
        while i < headers.len()
            invariant
                i <= headers@.len(),
                calls@.len() == i,
                forall|j: int| 0 <= j < i ==> #[trigger] calls@[j]@ == header_call(headers@[j]@),
            decreases headers@.len() - i,
        {
            let call = MethodCall::new("submit_header", copy_bytes(&headers[i]), 0);
            calls.push(call);
            i = i + 1;
        }
        assert(call_views(calls@) =~= byte_views(headers@).map_values(|h: Seq<u8>| header_call(h)));
        let key = headers_checkpoint_key(start_slot, end_slot);
        let body = headers_checkpoint_body(headers);
        self.begin(calls, Target::Headers { end_slot }, Some((key, body)))
    }

    /// Starts the submission of an encoded light-client update for `period`, attested at
    /// `attested_slot`. Only the period right after the last proven one is accepted, and only
    /// while it is at most one past the period of the last submitted slot. The update is stored
    /// first; the last period becomes `period` once it has committed.
    pub fn send_light_client_update(&mut self, update: &Vec<u8>, period: u64, attested_slot: u64) -> (r: Action)
        ensures
            !(old(self).stage is Idle) ==> *final(self) == *old(self) && r == Action::Finished(
                Err(RelayError::Busy),
            ),
            old(self).stage is Idle && !update_consistent(old(self).sync, period) ==> *final(self)
                == *old(self) && r == Action::Finished(Err(RelayError::Consistency)),
            old(self).stage is Idle && update_consistent(old(self).sync, period) ==> {
                &&& final(self).same_identity(old(self))
                &&& final(self).sync == old(self).sync
                &&& final(self).stage is Persisting
                &&& final(self).target == (Target::Update { period })
                &&& final(self).queue@.len() == 1
                &&& call_views(final(self).queue@) == seq![
                    ("submit_update"@, update@, GAS_PER_CALL, 0u128),
                ]
                &&& r matches Action::Persist { key, body }
                &&& key@ == update_key(period as nat, attested_slot as nat)
                &&& body@ == quoted_hex(update@)
            },
    {
        if self.stage != Stage::Idle {
            return Action::Finished(Err(RelayError::Busy));
        }
        if self.sync.last_period == u64::MAX || self.sync.last_period + 1 != period {
            return Action::Finished(Err(RelayError::Consistency));
        }
        if period - 1 > derive_period(self.sync.last_slot) {
            return Action::Finished(Err(RelayError::Consistency));
        }
        let mut calls: Vec<MethodCall> = Vec::new();
        calls.push(MethodCall::new("submit_update", copy_bytes(update), 0));
        assert(call_views(calls@) =~= seq![("submit_update"@, update@, GAS_PER_CALL, 0u128)]);
        let key = update_checkpoint_key(period, attested_slot);
        let body = update_checkpoint_body(update);
        self.begin(calls, Target::Update { period }, Some((key, body)))
    }

    /// Starts the registration of the signer account as a submitter, with its bond.
    pub fn register(&mut self) -> (r: Action)
        ensures
            !(old(self).stage is Idle) ==> *final(self) == *old(self) && r == Action::Finished(
                Err(RelayError::Busy),
            ),
            old(self).stage is Idle ==> {
                &&& final(self).same_identity(old(self))
                &&& final(self).sync == old(self).sync
                &&& final(self).stage is AwaitingNonce
                &&& final(self).target is Other
                &&& final(self).queue@.len() == 1
                &&& call_views(final(self).queue@) == seq![
                    ("register_submitter"@, register_args(old(self).account_id@), GAS_PER_CALL, REGISTRATION_DEPOSIT),
                ]
                &&& r is QueryNonce
            },
    {
        if self.stage != Stage::Idle {
            return Action::Finished(Err(RelayError::Busy));
        }
        let mut args: Vec<u8> = Vec::new();
        push_all(&mut args, "{\"account_id\":".as_bytes());
        let quoted = json_string(self.account_id.as_str());
        push_all(&mut args, quoted.as_slice());
        push_all(&mut args, "}".as_bytes());
        assert(args@ =~= register_args(self.account_id@));
        let mut calls: Vec<MethodCall> = Vec::new();
        calls.push(MethodCall::new("register_submitter", args, REGISTRATION_DEPOSIT));
        assert(call_views(calls@) =~= seq![
            ("register_submitter"@, register_args(self.account_id@), GAS_PER_CALL, REGISTRATION_DEPOSIT),
        ]);
        self.begin(calls, Target::Other, None)
    }

    /// Starts the initialisation of the client contract with the genesis state, given as the
    /// network name and the encoded finalized execution header, finalized beacon header and
    /// current and next sync committees. Updates are validated; BLS signature checks follow
    /// `verify_bls_signatures`.
    pub fn init_contract(
        &mut self,
        network: &str,
        finalized_execution_header: &Vec<u8>,
        finalized_beacon_header: &Vec<u8>,
        current_sync_committee: &Vec<u8>,
        next_sync_committee: &Vec<u8>,
        verify_bls_signatures: bool,
    ) -> (r: Action)
        ensures
            !(old(self).stage is Idle) ==> *final(self) == *old(self) && r == Action::Finished(
                Err(RelayError::Busy),
            ),
            old(self).stage is Idle && network.spec_bytes().len() > u32::MAX ==> *final(self)
                == *old(self) && r == Action::Finished(Err(RelayError::ArgumentTooLong)),
            old(self).stage is Idle && network.spec_bytes().len() <= u32::MAX ==> {
                &&& final(self).same_identity(old(self))
                &&& final(self).sync == old(self).sync
                &&& final(self).stage is AwaitingNonce
                &&& final(self).target is Other
                &&& final(self).queue@.len() == 1
                &&& call_views(final(self).queue@) == seq![
                    (
                        "init"@,
                        init_args(
                            network.spec_bytes(),
                            finalized_execution_header@,
                            finalized_beacon_header@,
                            current_sync_committee@,
                            next_sync_committee@,
                            verify_bls_signatures,
                        ),
                        GAS_PER_CALL,
                        0u128,
                    ),
                ]
                &&& r is QueryNonce
            },
    {
        if self.stage != Stage::Idle {
            return Action::Finished(Err(RelayError::Busy));
        }
        if network.as_bytes().len() > u32::MAX as usize {
            return Action::Finished(Err(RelayError::ArgumentTooLong));
        }
        let mut args: Vec<u8> = Vec::new();
        let name = borsh_str(network);
        push_all(&mut args, name.as_slice());
        push_all(&mut args, finalized_execution_header.as_slice());
        push_all(&mut args, finalized_beacon_header.as_slice());
        push_all(&mut args, current_sync_committee.as_slice());
        push_all(&mut args, next_sync_committee.as_slice());
        let validate = borsh_bool(true);
        push_all(&mut args, validate.as_slice());
        let verify = borsh_bool(verify_bls_signatures);
        push_all(&mut args, verify.as_slice());
        let gc = borsh_u64(HASHES_GC_THRESHOLD);
        push_all(&mut args, gc.as_slice());
        let cap = borsh_u32(MAX_SUBMITTED_BLOCKS_BY_ACCOUNT);
        push_all(&mut args, cap.as_slice());
        args.push(0u8);
        let ghost expected_args = init_args(
            network.spec_bytes(),
            finalized_execution_header@,
            finalized_beacon_header@,
            current_sync_committee@,
            next_sync_committee@,
            verify_bls_signatures,
        );
        assert(args@ =~= expected_args);
        let mut calls: Vec<MethodCall> = Vec::new();
        calls.push(MethodCall::new("init", args, 0));
        assert(call_views(calls@) =~= seq![("init"@, expected_args, GAS_PER_CALL, 0u128)]);
        self.begin(calls, Target::Other, None)
    }

    /// Builds the transaction for the calls in flight once the access key's nonce is known.
    fn dispatch(&mut self, nonce: u64, block_hash: [u8; 32]) -> (r: Action)
        requires
            old(self).queue@.len() > 0,
        ensures
            final(self).same_identity(old(self)),
            final(self).sync == old(self).sync,
            spec_next_nonce(nonce) is None ==> final(self).is_idle() && r == Action::Finished(
                Err(RelayError::NonceExhausted),
            ),
            spec_next_nonce(nonce) is Some ==> {
                &&& final(self).stage is AwaitingCommit
                &&& final(self).target == old(self).target
                &&& r matches Action::Broadcast(tx)
                &&& tx.signer_id@ == old(self).account_id@
                &&& tx.receiver_id@ == old(self).contract_account@
                &&& Some(tx.nonce) == spec_next_nonce(nonce)
                &&& tx.block_hash == block_hash
                &&& old(self).mode is AtomicBatch ==> tx.actions@ == old(self).queue@
                    && final(self).queue@.len() == 0
                &&& old(self).mode is Sequential ==> tx.actions@ == seq![old(self).queue@[0]]
                    && final(self).queue@ == old(self).queue@.drop_first()
            },
    {
        let actions = match self.mode {
            SubmissionMode::AtomicBatch => {
                let mut taken: Vec<MethodCall> = Vec::new();
                std::mem::swap(&mut taken, &mut self.queue);
                taken
            },
            SubmissionMode::Sequential => {
                let first = self.queue.remove(0);
                let mut one: Vec<MethodCall> = Vec::new();
                one.push(first);
                one
            },
        };
        let ghost old_queue = old(self).queue@;
        assert(self.mode is Sequential ==> self.queue@ =~= old_queue.drop_first());
        assert(self.mode is Sequential ==> actions@ =~= seq![old_queue[0]]);
        match build_transaction(self.account_id.clone(), self.contract_account.clone(), nonce, block_hash, actions) {
            Some(tx) => {
                self.stage = Stage::AwaitingCommit;
                Action::Broadcast(tx)
            },
            None => self.abort(RelayError::NonceExhausted),
        }
    }

    /// Takes the outcome of the last action and decides the next one. The sync state advances
    /// only when the last transaction of a submission has committed, and then only what that
    /// submission aimed at; any failure drops the submission in flight.
    pub fn on_event(&mut self, event: Event) -> (r: Action)
        ensures
            final(self).same_identity(old(self)),
            final(self).sync == (if old(self).stage is AwaitingCommit && event is Committed
                && old(self).queue@.len() == 0 {
                advanced(old(self).sync, old(self).target)
            } else {
                old(self).sync
            }),
            old(self).stage is Idle ==> *final(self) == *old(self) && r == Action::Finished(
                Err(RelayError::UnexpectedEvent),
            ),
            !(old(self).stage is Idle) && !expected(old(self).stage, event) ==> final(self).is_idle()
                && r == Action::Finished(Err(RelayError::UnexpectedEvent)),
            !(old(self).stage is Idle) ==> (event matches Event::Failed(f) ==> final(self).is_idle()
                && r == Action::Finished(Err(error_of(f)))),
            old(self).stage is Persisting && event is Persisted ==> {
                &&& final(self).stage is AwaitingNonce
                &&& final(self).queue@ == old(self).queue@
                &&& final(self).target == old(self).target
                &&& r is QueryNonce
            },
            old(self).stage is Persisting && event is PersistFailed ==> final(self).is_idle() && r
                == Action::Finished(Err(RelayError::Persistence)),
            old(self).stage is AwaitingNonce && old(self).queue@.len() == 0 && event is NonceObserved
                ==> final(self).is_idle() && r == Action::Finished(Err(RelayError::UnexpectedEvent)),
            old(self).stage is AwaitingNonce && old(self).queue@.len() > 0 ==> (event matches Event::NonceObserved { nonce, block_hash } ==> {
                &&& spec_next_nonce(nonce) is None ==> final(self).is_idle() && r == Action::Finished(
                    Err(RelayError::NonceExhausted),
                )
                &&& spec_next_nonce(nonce) is Some ==> {
                    &&& final(self).stage is AwaitingCommit
                    &&& final(self).target == old(self).target
                    &&& r matches Action::Broadcast(tx)
                    &&& tx.signer_id@ == old(self).account_id@
                    &&& tx.receiver_id@ == old(self).contract_account@
                    &&& Some(tx.nonce) == spec_next_nonce(nonce)
                    &&& tx.block_hash == block_hash
                    &&& old(self).mode is AtomicBatch ==> tx.actions@ == old(self).queue@
                        && final(self).queue@.len() == 0
                    &&& old(self).mode is Sequential ==> tx.actions@ == seq![old(self).queue@[0]]
                        && final(self).queue@ == old(self).queue@.drop_first()
                }
            }),
            old(self).stage is AwaitingCommit && event is Committed && old(self).queue@.len() == 0
                ==> final(self).is_idle() && r == Action::Finished(Ok(())),
            old(self).stage is AwaitingCommit && event is Committed && old(self).queue@.len() > 0 ==> {
                &&& final(self).stage is AwaitingNonce
                &&& final(self).queue@ == old(self).queue@
                &&& final(self).target == old(self).target
                &&& r is QueryNonce
            },
    {
        match self.stage {
            Stage::Idle => Action::Finished(Err(RelayError::UnexpectedEvent)),
            Stage::Persisting => match event {
                Event::Persisted => {
                    self.stage = Stage::AwaitingNonce;
                    Action::QueryNonce
                },
                Event::PersistFailed => self.abort(RelayError::Persistence),
                Event::Failed(f) => self.abort(failure_error(f)),
                _ => self.abort(RelayError::UnexpectedEvent),
            },
            Stage::AwaitingNonce => match event {
                Event::NonceObserved { nonce, block_hash } => {
                    if self.queue.len() == 0 {
                        self.abort(RelayError::UnexpectedEvent)
                    } else {
                        self.dispatch(nonce, block_hash)
                    }
                },
                Event::Failed(f) => self.abort(failure_error(f)),
                _ => self.abort(RelayError::UnexpectedEvent),
            },
            Stage::AwaitingCommit => match event {
                Event::Committed => {
                    if self.queue.len() == 0 {
                        match self.target {
                            Target::Headers { end_slot } => {
                                self.sync.last_slot = end_slot;
                            },
                            Target::Update { period } => {
                                self.sync.last_period = period;
                            },
                            Target::Other => {},
                        }
                        self.stage = Stage::Idle;
                        self.target = Target::Other;
                        Action::Finished(Ok(()))
                    } else {
                        self.stage = Stage::AwaitingNonce;
                        Action::QueryNonce
                    }
                },
                Event::Failed(f) => self.abort(failure_error(f)),
                _ => self.abort(RelayError::UnexpectedEvent),
            },
        }
    }

    /// A view call of `method_name` on the client contract.
    fn view_call(&self, method_name: &str, args: Vec<u8>) -> (r: ViewCall)
        ensures
            r.receiver_id@ == self.contract_account@,
            r.method_name@ == method_name@,
            r.args@ == args@,
    {
        ViewCall { receiver_id: self.contract_account.clone(), method_name: method_name.to_owned(), args }
    }

    /// The query asking whether the contract knows an execution block hash.
    pub fn is_known_block_query(&self, execution_block_hash: &[u8; 32]) -> (r: ViewCall)
        ensures
            r.receiver_id@ == self.contract_account@,
            r.method_name@ == "is_known_execution_header"@,
            r.args@ == execution_block_hash@,
    {
        self.view_call("is_known_execution_header", borsh_hash(execution_block_hash))
    }

    /// Reads the answer to `is_known_block_query`.
    pub fn is_known_block(&self, response: &Vec<u8>) -> (r: Result<bool, RelayError>)
        ensures
            r == (if response@ == seq![0u8] {
                Ok(false)
            } else if response@ == seq![1u8] {
                Ok(true)
            } else {
                Err(RelayError::Decode)
            }),
    {
        match borsh_read_bool(response.as_slice()) {
            Some(b) => Ok(b),
            None => Err(RelayError::Decode),
        }
    }

    /// The query for the contract's finalized beacon block root.
    pub fn finalized_beacon_block_hash_query(&self) -> (r: ViewCall)
        ensures
            r.receiver_id@ == self.contract_account@,
            r.method_name@ == "finalized_beacon_block_root"@,
            r.args@ == empty_object(),
    {
        let args: Vec<u8> = vec![123u8, 125u8];
        assert(args@ =~= empty_object());
        self.view_call("finalized_beacon_block_root", args)
    }

    /// Reads the answer to `finalized_beacon_block_hash_query`.
    pub fn get_finalized_beacon_block_hash(&self, response: &Vec<u8>) -> (r: Result<[u8; 32], RelayError>)
        ensures
            r is Ok <==> response@.len() == 32,
            r matches Ok(h) ==> h@ == response@,
            r is Err ==> r == Err::<[u8; 32], RelayError>(RelayError::Decode),
    {
        match borsh_read_hash(response.as_slice()) {
            Some(h) => Ok(h),
            None => Err(RelayError::Decode),
        }
    }

    /// The query for the root of the contract's last finalized beacon header.
    pub fn finalized_header_root_query(&self) -> (r: ViewCall)
        ensures
            r.receiver_id@ == self.contract_account@,
            r.method_name@ == "finalized_beacon_header_root"@,
            r.args@ == empty_object(),
    {
        let args: Vec<u8> = vec![123u8, 125u8];
        assert(args@ =~= empty_object());
        self.view_call("finalized_beacon_header_root", args)
    }

    /// Reads the answer to `finalized_header_root_query` and tells whether it is `expected`.
    pub fn is_last_finalized_header_root(&self, expected: &[u8; 32], response: &Vec<u8>) -> (r: Result<bool, RelayError>)
        ensures
            r == (if response@.len() == 32 {
                Ok(response@ == expected@)
            } else {
                Err(RelayError::Decode)
            }),
    {
        match borsh_read_hash(response.as_slice()) {
            Some(h) => Ok(same_hash(&h, expected)),
            None => Err(RelayError::Decode),
        }
    }

} // impl EthClientContract

} // verus!
