use vstd::prelude::*;

verus! {

/// Gas attached to every method call: 75 TeraGas.
pub const GAS_PER_CALL: u64 = 75_000_000_000_000;

/// One NEAR in its smallest unit.
pub const ONE_NEAR: u128 = 1_000_000_000_000_000_000_000_000;

/// The bond that comes with a submitter registration.
pub const REGISTRATION_DEPOSIT: u128 = 10 * ONE_NEAR;

/// One method invocation inside a transaction.
#[derive(Debug)]
pub struct MethodCall {
    pub method_name: String,
    pub args: Vec<u8>,
    pub gas: u64,
    pub deposit: u128,
}

impl View for MethodCall {
    type V = (Seq<char>, Seq<u8>, u64, u128);

    open spec fn view(&self) -> Self::V {
        (self.method_name@, self.args@, self.gas, self.deposit)
    }
}

/// The views of a sequence of method calls.
pub open spec fn call_views(v: Seq<MethodCall>) -> Seq<(Seq<char>, Seq<u8>, u64, u128)> {
    v.map_values(|c: MethodCall| c@)
}

impl MethodCall {
    /// A call of `method_name` with the standard gas budget.
    pub fn new(method_name: &str, args: Vec<u8>, deposit: u128) -> (r: MethodCall)
        ensures
            r@ == (method_name@, args@, GAS_PER_CALL, deposit),
    {
        MethodCall { method_name: method_name.to_owned(), args, gas: GAS_PER_CALL, deposit }
    }
}

/// A transaction ready to be signed with the signer's key and broadcast.
#[derive(Debug)]
pub struct UnsignedTransaction {
    pub signer_id: String,
    pub receiver_id: String,
    pub nonce: u64,
    pub block_hash: [u8; 32],
    pub actions: Vec<MethodCall>,
}

/// The nonce that the next transaction of an access key carries, given the key's current
/// nonce on the ledger; none once the counter is exhausted.
pub open spec fn spec_next_nonce(current: u64) -> Option<u64> {
    if current < u64::MAX { Some((current + 1) as u64) } else { None }
}

/// The nonce that the ledger records for an access key once a transaction carrying
/// `tx_nonce` has been committed.
pub open spec fn nonce_after_commit(tx_nonce: u64) -> u64 {
    tx_nonce
}

/// The nonce to use after observing the access key's `current` nonce.
pub fn next_nonce(current: u64) -> (r: Option<u64>)
    ensures
        r == spec_next_nonce(current),
{
    if current < u64::MAX {
        Some(current + 1)
    } else {
        None
    }
}

/// Two sequencing rounds on one access key, with the first round's transaction committed
/// in between and nothing else touching the key, hand out nonces that differ by exactly one.
pub proof fn lemma_sequential_nonces_differ_by_one(current: u64)
    requires
        current < u64::MAX - 1,
    ensures
        spec_next_nonce(current) is Some,
        spec_next_nonce(nonce_after_commit(spec_next_nonce(current)->0)) is Some,
        spec_next_nonce(nonce_after_commit(spec_next_nonce(current)->0))->0 == spec_next_nonce(
            current,
        )->0 + 1,
{
}

/// Assembles a transaction from `signer_id` to `receiver_id` that follows the access key's
/// observed nonce `current_nonce`, bound to `block_hash`, with `actions` in the given order.
pub fn build_transaction(
    signer_id: String,
    receiver_id: String,
    current_nonce: u64,
    block_hash: [u8; 32],
    actions: Vec<MethodCall>,
) -> (r: Option<UnsignedTransaction>)
    ensures
        r is Some <==> spec_next_nonce(current_nonce) is Some,
        r matches Some(tx) ==> {
            &&& tx.signer_id@ == signer_id@
            &&& tx.receiver_id@ == receiver_id@
            &&& Some(tx.nonce) == spec_next_nonce(current_nonce)
            &&& tx.block_hash == block_hash
            &&& tx.actions@ == actions@
        },
{
    match next_nonce(current_nonce) {
        Some(nonce) => Some(UnsignedTransaction { signer_id, receiver_id, nonce, block_hash, actions }),
        None => None,
    }
}

} // verus!
