use vstd::prelude::*;
use ethers_core::types::transaction::eip2718::TypedTransaction;
use ethers_core::types::{Signature, TransactionRequest, H160, U256};
use ethers_signers::{LocalWallet, WalletError};
use crate::fixture::{AccountMatch, PreAccount, StateTest};
use crate::word::{Address, Word};

verus! {

#[verifier::external_type_specification]
#[verifier::external_body]
pub struct ExWalletError(WalletError);

/// The chain id that every request is built for.
pub const CHAIN_ID: u64 = 1;

/// The block constants that the tracer executes under.
#[derive(Clone, Copy, Debug)]
pub struct BlockConstants {
    pub coinbase: Address,
    pub timestamp: Word,
    pub number: u64,
    pub difficulty: Word,
    pub gas_limit: Word,
    pub base_fee: Word,
}

/// The transaction fields that are signed.
#[derive(Clone, Debug)]
pub struct TxFields {
    pub chain_id: u64,
    pub from: Address,
    pub to: Option<Address>,
    pub nonce: Word,
    pub value: Word,
    pub gas_limit: u64,
    pub gas_price: Word,
    pub data: Vec<u8>,
}

/// The parts of an ECDSA transaction signature; `r` and `s` are 256-bit
/// numbers as little-endian 64-bit limbs.
#[derive(Clone, Copy, Debug)]
pub struct TxSignature {
    pub v: u64,
    pub r: [u64; 4],
    pub s: [u64; 4],
}

/// The mathematical content of `TxFields`.
pub ghost struct TxView {
    pub chain_id: u64,
    pub from: Address,
    pub to: Option<Address>,
    pub nonce: Word,
    pub value: Word,
    pub gas_limit: u64,
    pub gas_price: Word,
    pub data: Seq<u8>,
}

impl View for TxFields {
    type V = TxView;

    open spec fn view(&self) -> TxView {
        TxView {
            chain_id: self.chain_id,
            from: self.from,
            to: self.to,
            nonce: self.nonce,
            value: self.value,
            gas_limit: self.gas_limit,
            gas_price: self.gas_price,
            data: self.data@,
        }
    }
}

/// The one signed transaction of a request.
#[derive(Clone, Debug)]
pub struct SignedTx {
    pub fields: TxFields,
    pub signature: TxSignature,
    pub rlp_bytes: Vec<u8>,
    pub rlp_unsigned_bytes: Vec<u8>,
    pub hash: [u8; 32],
}

/// What the tracer is asked to execute.
#[derive(Clone, Debug)]
pub struct TraceRequest {
    pub chain_id: u64,
    pub history_hashes: Vec<Word>,
    pub block_constants: BlockConstants,
    pub transaction: SignedTx,
    pub accounts: Vec<PreAccount>,
}

pub open spec fn hex_digit(d: u8) -> char {
    seq!['0', '1', '2', '3', '4', '5', '6', '7', '8', '9', 'a', 'b', 'c', 'd', 'e', 'f'][d as int]
}

/// Lowercase hexadecimal text of a byte string, two digits per byte.
pub open spec fn hex_of(b: Seq<u8>) -> Seq<char>
    decreases b.len(),
{
    if b.len() == 0 {
        Seq::empty()
    } else {
        let last = b.last();
        hex_of(b.drop_last()) + seq![hex_digit(last / 16), hex_digit(last % 16)]
    }
}

/// Whether the wallet made from the key text signs the legacy transaction.
pub uninterp spec fn sign_ok(key: Seq<char>, f: TxView) -> bool;

/// The signature that the wallet made from the key text gives the legacy
/// transaction.
pub uninterp spec fn signature_of(key: Seq<char>, f: TxView) -> TxSignature;

/// The unsigned encoding of the legacy transaction.
pub uninterp spec fn rlp_unsigned_of(f: TxView) -> Seq<u8>;

/// The encoding of the legacy transaction with its signature.
pub uninterp spec fn rlp_signed_of(f: TxView, sig: TxSignature) -> Seq<u8>;

/// The Keccak-256 digest of a byte string.
pub uninterp spec fn keccak_of(b: Seq<u8>) -> Seq<u8>;

/// Relies on hex::encode: two lowercase hexadecimal digits per byte, in order.
#[verifier::external_body]
fn hex_encode(b: &Vec<u8>) -> (r: String)
    ensures
        r@ == hex_of(b@),
{
    hex::encode(b)
}

/// Relies on TransactionRequest's builder, its conversion into a legacy
/// TypedTransaction and TypedTransaction::rlp: the encoding depends on the
/// fields alone.
#[verifier::external_body]
fn unsigned_rlp(f: &TxFields) -> (r: Vec<u8>)
    ensures
        r@ == rlp_unsigned_of(f@),
{
    let w = |x: Word| U256([x.limbs0, x.limbs1, x.limbs2, x.limbs3]);
    let mut t = TransactionRequest::new().chain_id(f.chain_id).from(H160(f.from.bytes));
    t = t.nonce(w(f.nonce)).value(w(f.value)).data(f.data.clone());
    t = t.gas(f.gas_limit).gas_price(w(f.gas_price));
    t.to = f.to.map(|a| H160(a.bytes).into());
    let tx: TypedTransaction = t.into();
    tx.rlp().to_vec()
}

/// Relies on LocalWallet::from_str and Wallet::sign_transaction_sync on the
/// legacy transaction built as in `unsigned_rlp`: whether signing succeeds and
/// the (deterministic) signature depend on the key text and the fields alone.
/// The chain id is the fixed one, so the EIP-155 `v` cannot overflow.
#[verifier::external_body]
fn sign_transaction(key_hex: &str, f: &TxFields) -> (r: Result<TxSignature, WalletError>)
    requires
        f.chain_id == CHAIN_ID,
    ensures
        r is Ok == sign_ok(key_hex@, f@),
        r matches Ok(sig) ==> sig == signature_of(key_hex@, f@),
{
    let w = |x: Word| U256([x.limbs0, x.limbs1, x.limbs2, x.limbs3]);
    let mut t = TransactionRequest::new().chain_id(f.chain_id).from(H160(f.from.bytes));
    t = t.nonce(w(f.nonce)).value(w(f.value)).data(f.data.clone());
    t = t.gas(f.gas_limit).gas_price(w(f.gas_price));
    t.to = f.to.map(|a| H160(a.bytes).into());
    let s = key_hex.parse::<LocalWallet>()?.sign_transaction_sync(&t.into())?;
    Ok(TxSignature { v: s.v, r: s.r.0, s: s.s.0 })
}

/// Relies on TypedTransaction::rlp_signed on the legacy transaction built as in
/// `unsigned_rlp`: the encoding depends on the fields and the signature alone.
#[verifier::external_body]
fn signed_rlp(f: &TxFields, sig: &TxSignature) -> (r: Vec<u8>)
    ensures
        r@ == rlp_signed_of(f@, *sig),
{
    let w = |x: Word| U256([x.limbs0, x.limbs1, x.limbs2, x.limbs3]);
    let mut t = TransactionRequest::new().chain_id(f.chain_id).from(H160(f.from.bytes));
    t = t.nonce(w(f.nonce)).value(w(f.value)).data(f.data.clone());
    t = t.gas(f.gas_limit).gas_price(w(f.gas_price));
    t.to = f.to.map(|a| H160(a.bytes).into());
    let signature = Signature { r: U256(sig.r), s: U256(sig.s), v: sig.v };
    let tx: TypedTransaction = t.into();
    tx.rlp_signed(&signature).to_vec()
}

/// Relies on ethers_core::utils::keccak256: the digest depends on the bytes alone.
#[verifier::external_body]
fn keccak(b: &Vec<u8>) -> (r: [u8; 32])
    ensures
        r@ == keccak_of(b@),
{
    ethers_core::utils::keccak256(b)
}

/// The transaction fields that a fixture's request signs.
pub open spec fn tx_view_of(st: StateTest) -> TxView {
    TxView {
        chain_id: CHAIN_ID,
        from: st.from,
        to: st.to,
        nonce: st.nonce,
        value: st.value,
        gas_limit: st.gas_limit,
        gas_price: st.gas_price,
        data: st.data@,
    }
}

/// The wallet made from the fixture's key signs the fixture's transaction.
pub open spec fn signs(st: StateTest) -> bool {
    sign_ok(hex_of(st.secret_key@), tx_view_of(st))
}

/// `req` is the request for fixture `st`: the fixed chain id, the previous
/// block hash as the only history hash, block constants from the environment,
/// the fixture's transaction with its unsigned encoding, the signature by the
/// fixture's key, the signed encoding and its digest as the hash, and the
/// whole pre-state.
pub open spec fn request_from(req: TraceRequest, st: StateTest) -> bool {
    &&& req.chain_id == CHAIN_ID
    &&& req.history_hashes@ == seq![st.env.previous_hash]
    &&& req.block_constants.coinbase == st.env.current_coinbase
    &&& req.block_constants.timestamp.value() == st.env.current_timestamp as nat
    &&& req.block_constants.number == st.env.current_number
    &&& req.block_constants.difficulty == st.env.current_difficulty
    &&& req.block_constants.gas_limit.value() == st.env.current_gas_limit as nat
    &&& req.block_constants.base_fee == st.env.current_base_fee
    &&& req.transaction.fields@ == tx_view_of(st)
    &&& req.transaction.rlp_unsigned_bytes@ == rlp_unsigned_of(tx_view_of(st))
    &&& req.transaction.signature == signature_of(hex_of(st.secret_key@), tx_view_of(st))
    &&& req.transaction.rlp_bytes@ == rlp_signed_of(tx_view_of(st), req.transaction.signature)
    &&& req.transaction.hash@ == keccak_of(req.transaction.rlp_bytes@)
    &&& req.accounts@ == st.pre@
}

/// Builds the trace request for a fixture: signs its transaction with the
/// fixture's key and hands back the test id and the expected post-state.
/// Succeeds exactly when the wallet made from the key signs the transaction.
pub fn into_traceconfig(st: StateTest) -> (r: Result<
    (String, TraceRequest, Vec<(Address, AccountMatch)>),
    WalletError,
>)
    ensures
        r is Ok <==> signs(st),
        r matches Ok((id, req, post)) ==> id@ == st.id@ && post@ == st.result@ && request_from(
            req,
            st,
        ),
{
    let key_hex = hex_encode(&st.secret_key);
    let fields = TxFields {
        chain_id: CHAIN_ID,
        from: st.from,
        to: st.to,
        nonce: st.nonce,
        value: st.value,
        gas_limit: st.gas_limit,
        gas_price: st.gas_price,
        data: st.data,
    };
    assert(fields@ == tx_view_of(st));
    let rlp_unsigned_bytes = unsigned_rlp(&fields);
    let signature = match sign_transaction(key_hex.as_str(), &fields) {
        Ok(sig) => sig,
        Err(e) => return Err(e),
    };
    let rlp_bytes = signed_rlp(&fields, &signature);
    let hash = keccak(&rlp_bytes);
    let mut history_hashes: Vec<Word> = Vec::new();
    history_hashes.push(st.env.previous_hash);
    let block_constants = BlockConstants {
        coinbase: st.env.current_coinbase,
        timestamp: Word::from_u64(st.env.current_timestamp),
        number: st.env.current_number,
        difficulty: st.env.current_difficulty,
        gas_limit: Word::from_u64(st.env.current_gas_limit),
        base_fee: st.env.current_base_fee,
    };
    let transaction = SignedTx { fields, signature, rlp_bytes, rlp_unsigned_bytes, hash };
    let req = TraceRequest {
        chain_id: CHAIN_ID,
        history_hashes,
        block_constants,
        transaction,
        accounts: st.pre,
    };
    assert(req.history_hashes@ =~= seq![st.env.previous_hash]);
    Ok((st.id, req, st.result))
}

} // verus!
