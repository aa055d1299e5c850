use vstd::prelude::*;

use crate::types::{AccountId, Balance};

verus! {

/// A call into another local contract, carried by a proposal. Immutable
/// once constructed.
#[derive(Debug)]
pub struct ContractCall {
    pub callee: AccountId,
    pub selector: [u8; 4],
    pub input: Vec<u8>,
    pub transferred_value: Balance,
    pub ref_time_limit: u64,
    pub allow_reentry: bool,
}

/// A cross-chain call: an opaque, already-encoded message for another
/// chain. The engine transports the bytes unmodified; it never interprets
/// them.
#[derive(Debug)]
pub struct ChainCall {
    pub chain_id: u32,
    pub message: Vec<u8>,
}

/// The action a passed proposal is meant to trigger.
#[derive(Debug)]
pub enum Call {
    Contract(ContractCall),
    Chain(ChainCall),
}

/// Mathematical image of a [`ContractCall`].
#[verifier::ext_equal]
pub struct ContractCallView {
    pub callee: AccountId,
    pub selector: Seq<u8>,
    pub input: Seq<u8>,
    pub transferred_value: Balance,
    pub ref_time_limit: u64,
    pub allow_reentry: bool,
}

/// Mathematical image of a [`ChainCall`].
#[verifier::ext_equal]
pub struct ChainCallView {
    pub chain_id: u32,
    pub message: Seq<u8>,
}

/// Mathematical image of a [`Call`].
#[verifier::ext_equal]
pub enum CallView {
    Contract(ContractCallView),
    Chain(ChainCallView),
}

impl View for ContractCall {
    type V = ContractCallView;

    open spec fn view(&self) -> ContractCallView {
        ContractCallView {
            callee: self.callee,
            selector: self.selector@,
            input: self.input@,
            transferred_value: self.transferred_value,
            ref_time_limit: self.ref_time_limit,
            allow_reentry: self.allow_reentry,
        }
    }
}

impl View for ChainCall {
    type V = ChainCallView;

    open spec fn view(&self) -> ChainCallView {
        ChainCallView { chain_id: self.chain_id, message: self.message@ }
    }
}

impl View for Call {
    type V = CallView;

    open spec fn view(&self) -> CallView {
        match self {
            Call::Contract(c) => CallView::Contract(c@),
            Call::Chain(c) => CallView::Chain(c@),
        }
    }
}

/// A fresh vector holding exactly the same bytes.
pub fn copy_bytes(v: &Vec<u8>) -> (r: Vec<u8>)
    ensures
        r@ == v@,
{
    let mut out: Vec<u8> = Vec::new();
    let n = v.len();
    let mut i: usize = 0;
    while i < n
        invariant
            i <= n,
            n == v@.len(),
            out@ == v@.take(i as int),
        decreases n - i,
    {
        out.push(v[i]);
        proof {
            assert(out@ =~= v@.take(i as int + 1));
        }
        i = i + 1;
    }
    proof {
        assert(out@ =~= v@);
    }
    out
}

/// A fresh action holding exactly the same fields and bytes.
pub fn copy_call(c: &Call) -> (r: Call)
    ensures
        r@ == c@,
{
    match c {
        Call::Contract(cc) => Call::Contract(
            ContractCall {
                callee: cc.callee,
                selector: cc.selector,
                input: copy_bytes(&cc.input),
                transferred_value: cc.transferred_value,
                ref_time_limit: cc.ref_time_limit,
                allow_reentry: cc.allow_reentry,
            },
        ),
        Call::Chain(cc) => Call::Chain(
            ChainCall { chain_id: cc.chain_id, message: copy_bytes(&cc.message) },
        ),
    }
}

impl Call {
    /// Builds a contract-call action from caller-supplied parameters. Pure:
    /// a zero-length input and an all-zero selector are valid, and the bytes
    /// are carried over unmodified, never truncated.
    pub fn contract(
        callee: AccountId,
        selector: [u8; 4],
        input: Vec<u8>,
        transferred_value: Balance,
        ref_time_limit: u64,
        allow_reentry: bool,
    ) -> (r: Call)
        ensures
            r@ == CallView::Contract(
                ContractCallView {
                    callee,
                    selector: selector@,
                    input: input@,
                    transferred_value,
                    ref_time_limit,
                    allow_reentry,
                },
            ),
    {
        Call::Contract(
            ContractCall { callee, selector, input, transferred_value, ref_time_limit, allow_reentry },
        )
    }

    /// Builds a cross-chain action from a destination chain and an opaque,
    /// already-encoded message, carried over unmodified.
    pub fn chain(chain_id: u32, message: Vec<u8>) -> (r: Call)
        ensures
            r@ == CallView::Chain(ChainCallView { chain_id, message: message@ }),
    {
        Call::Chain(ChainCall { chain_id, message })
    }
}

} // verus!
