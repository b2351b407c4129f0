//! Two-phase replay protection.
//!
//! Phase one (`create_tx_pda`) records a claim for a `(source chain,
//! transaction id)` key, failing if one exists; phase two
//! (`process_message`) runs full three-tier authorization and destroys
//! the record, failing if none exists. Between the two, the record's
//! mere existence is the only state. A per-source-chain watermark
//! tracks the highest claimed id; it is advisory only and never gates
//! either phase.

use vstd::prelude::*;

use crate::errors::GatewayError;
use crate::events::MessageProcessed;
use crate::events::TxPdaCreated;
use crate::gateway::MessageGateway;
use crate::hash::create_message_hash_for_signing;
use crate::hash::spec_message_digest;
use crate::hash::spec_sizes_ok;
use crate::registry::MessageSignature;
use crate::registry::SignerRegistry;
use crate::registry::ValidationResult;
use crate::signature::spec_claim_auth_error;
use crate::signature::spec_validate_error;
use crate::signature::spec_validation_counts;
use crate::signature::validate_signatures_tx1;
use crate::signature::validate_three_layer_signatures;
use crate::signature::InstructionRecord;
use crate::MAX_OFF_CHAIN_DATA_SIZE;
use crate::MAX_ON_CHAIN_DATA_SIZE;
use crate::MAX_RECIPIENT_SIZE;
use crate::MAX_SENDER_SIZE;

verus! {

/// A claim record: proof that phase one accepted this transaction id
/// and phase two has not yet consumed it.
#[derive(Clone, Copy, Debug, PartialEq, Eq, Structural)]
pub struct TxIdPDA {
    /// The transaction id this record guards.
    pub tx_id: u128,
}

/// The watermark counter of one source chain.
#[derive(Clone, Copy, Debug, PartialEq, Eq, Structural)]
pub struct CounterPDA {
    /// The source chain this counter tracks.
    pub source_chain_id: u64,
    /// The highest transaction id claimed from that chain so far.
    pub highest_tx_id_seen: u128,
}

/// A claim record together with the source chain that keys it.
#[derive(Clone, Copy, Debug, PartialEq, Eq, Structural)]
pub struct ClaimEntry {
    /// The source chain of the claimed transaction.
    pub source_chain_id: u64,
    /// The guarded record.
    pub record: TxIdPDA,
}

/// The shared keyed store of claim records and watermark counters.
/// Every operation on it is atomic: it either completes or leaves the
/// store untouched.
#[derive(Debug)]
pub struct ReplayStore {
    /// Live claim records, at most one per (source chain, id) key.
    pub claims: Vec<ClaimEntry>,
    /// Watermark counters, at most one per source chain.
    pub counters: Vec<CounterPDA>,
}

impl ReplayStore {
    /// Keys are unique: no two live claim records share a (source
    /// chain, id) pair, and no two counters share a chain.
    pub open spec fn wf(self) -> bool {
        &&& (forall|i: int, j: int|
            #![trigger self.claims@[i], self.claims@[j]]
            0 <= i < j < self.claims@.len() ==> !(self.claims@[i].source_chain_id
                == self.claims@[j].source_chain_id && self.claims@[i].record.tx_id
                == self.claims@[j].record.tx_id))
        &&& (forall|i: int, j: int|
            #![trigger self.counters@[i], self.counters@[j]]
            0 <= i < j < self.counters@.len() ==> self.counters@[i].source_chain_id
                != self.counters@[j].source_chain_id)
    }

    /// Whether a live claim record exists for this key.
    pub open spec fn spec_is_claimed(self, source_chain_id: u64, tx_id: u128) -> bool {
        exists|i: int|
            0 <= i < self.claims@.len() && self.claims@[i].source_chain_id == source_chain_id
                && self.claims@[i].record.tx_id == tx_id
    }

    /// Whether a watermark counter exists for this chain.
    pub open spec fn spec_has_counter(self, source_chain_id: u64) -> bool {
        exists|i: int|
            0 <= i < self.counters@.len() && self.counters@[i].source_chain_id == source_chain_id
    }

    /// The watermark of this chain; meaningful only while
    /// [`Self::spec_has_counter`] holds.
    pub open spec fn spec_watermark(self, source_chain_id: u64) -> u128 {
        let i = choose|i: int|
            0 <= i < self.counters@.len() && self.counters@[i].source_chain_id == source_chain_id;
        self.counters@[i].highest_tx_id_seen
    }

    /// An empty store: nothing claimed, no chain seen.
    pub fn new() -> (store: ReplayStore)
        ensures
            store.wf(),
            forall|s: u64, t: u128| !store.spec_is_claimed(s, t),
            forall|s: u64| !store.spec_has_counter(s),
    {
        ReplayStore { claims: Vec::new(), counters: Vec::new() }
    }

    /// Whether a live claim record exists for this key.
    pub fn is_claimed(&self, source_chain_id: u64, tx_id: u128) -> (r: bool)
        ensures
            r == self.spec_is_claimed(source_chain_id, tx_id),
    {
        find_claim_index(&self.claims, source_chain_id, tx_id).is_some()
    }

    /// The watermark of this chain, if the chain has been seen.
    pub fn watermark(&self, source_chain_id: u64) -> (r: Option<u128>)
        requires
            self.wf(),
        ensures
            self.spec_has_counter(source_chain_id) ==> r == Some(
                self.spec_watermark(source_chain_id),
            ),
            !self.spec_has_counter(source_chain_id) ==> r is None,
    {
        match find_counter_index(&self.counters, source_chain_id) {
            Some(i) => {
                proof {
                    lemma_watermark_at(*self, i as int);
                }
                Some(self.counters[i].highest_tx_id_seen)
            },
            None => None,
        }
    }
}

/// Finds the claim record for a key, if one exists.
fn find_claim_index(claims: &Vec<ClaimEntry>, source_chain_id: u64, tx_id: u128) -> (r: Option<
    usize,
>)
    ensures
        match r {
            Some(i) => i < claims@.len() && claims@[i as int].source_chain_id == source_chain_id
                && claims@[i as int].record.tx_id == tx_id,
            None => forall|i: int|
                0 <= i < claims@.len() ==> !(claims@[i].source_chain_id == source_chain_id
                    && claims@[i].record.tx_id == tx_id),
        },
{
    let mut i: usize = 0;
    while i < claims.len()
        invariant
            i <= claims@.len(),
            forall|j: int|
                0 <= j < i ==> !(claims@[j].source_chain_id == source_chain_id
                    && claims@[j].record.tx_id == tx_id),
        decreases claims@.len() - i,
    {
        if claims[i].source_chain_id == source_chain_id && claims[i].record.tx_id == tx_id {
            return Some(i);
        }
        i += 1;
    }
    None
}

/// Finds the counter of a chain, if one exists.
fn find_counter_index(counters: &Vec<CounterPDA>, source_chain_id: u64) -> (r: Option<usize>)
    ensures
        match r {
            Some(i) => i < counters@.len() && counters@[i as int].source_chain_id
                == source_chain_id,
            None => forall|i: int|
                0 <= i < counters@.len() ==> counters@[i].source_chain_id != source_chain_id,
        },
{
    let mut i: usize = 0;
    while i < counters.len()
        invariant
            i <= counters@.len(),
            forall|j: int| 0 <= j < i ==> counters@[j].source_chain_id != source_chain_id,
        decreases counters@.len() - i,
    {
        if counters[i].source_chain_id == source_chain_id {
            return Some(i);
        }
        i += 1;
    }
    None
}

/// In a well-formed store the counter of a chain is unique, so the
/// watermark of the chain at `counters[k]` is that counter's value.
proof fn lemma_watermark_at(store: ReplayStore, k: int)
    requires
        store.wf(),
        0 <= k < store.counters@.len(),
    ensures
        store.spec_has_counter(store.counters@[k].source_chain_id),
        store.spec_watermark(store.counters@[k].source_chain_id)
            == store.counters@[k].highest_tx_id_seen,
{
    let chain = store.counters@[k].source_chain_id;
    assert(store.spec_has_counter(chain));
    let i = choose|i: int|
        0 <= i < store.counters@.len() && store.counters@[i].source_chain_id == chain;
    if i != k {
        assert(store.counters@[i].source_chain_id == store.counters@[k].source_chain_id);
        assert(false);
    }
}

/// The error, if any, counter initialization is rejected with.
pub open spec fn spec_init_counter_error(
    gateway: MessageGateway,
    authority: [u8; 32],
    source_chain_id: u64,
    store: ReplayStore,
) -> Option<GatewayError> {
    if gateway.authority@ != authority@ {
        Some(GatewayError::UnauthorizedAuthority)
    } else if !gateway.system_enabled {
        Some(GatewayError::SystemDisabled)
    } else if source_chain_id == 0 {
        Some(GatewayError::InvalidChainId)
    } else if store.spec_has_counter(source_chain_id) {
        Some(GatewayError::CounterAlreadyExists)
    } else {
        None
    }
}

/// Creates the watermark counter of one source chain explicitly, at
/// zero. Only the gateway authority may, only while the gateway is
/// enabled, and never for the reserved chain id zero; claims create
/// counters on first sight anyway, so this is optional bookkeeping.
pub fn initialize_counter(
    store: &mut ReplayStore,
    gateway: &MessageGateway,
    authority: &[u8; 32],
    source_chain_id: u64,
) -> (r: Result<(), GatewayError>)
    requires
        old(store).wf(),
    ensures
        final(store).wf(),
        match spec_init_counter_error(*gateway, *authority, source_chain_id, *old(store)) {
            Some(e) => r == Err::<(), GatewayError>(e) && *final(store) == *old(store),
            None => {
                &&& r matches Ok(_)
                &&& final(store).claims@ == old(store).claims@
                &&& final(store).spec_has_counter(source_chain_id)
                &&& final(store).spec_watermark(source_chain_id) == 0
                &&& forall|ch: u64|
                    ch != source_chain_id ==> final(store).spec_has_counter(ch)
                        == old(store).spec_has_counter(ch)
                &&& forall|ch: u64|
                    ch != source_chain_id && old(store).spec_has_counter(ch)
                        ==> final(store).spec_watermark(ch) == old(store).spec_watermark(ch)
            },
        },
{
    if !crate::registry::bytes32_eq(&gateway.authority, authority) {
        return Err(GatewayError::UnauthorizedAuthority);
    }
    if !gateway.system_enabled {
        return Err(GatewayError::SystemDisabled);
    }
    if source_chain_id == 0 {
        return Err(GatewayError::InvalidChainId);
    }
    if find_counter_index(&store.counters, source_chain_id).is_some() {
        return Err(GatewayError::CounterAlreadyExists);
    }
    store.counters.push(CounterPDA { source_chain_id, highest_tx_id_seen: 0 });
    proof {
        let oldc = old(store).counters@;
        let newc = store.counters@;
        let n = oldc.len() as int;
        assert(newc[n].source_chain_id == source_chain_id);
        lemma_watermark_at(*store, n);
        assert forall|ch: u64| ch != source_chain_id implies store.spec_has_counter(ch) == old(
            store,
        ).spec_has_counter(ch) by {
            if old(store).spec_has_counter(ch) {
                let i = choose|i: int| 0 <= i < oldc.len() && oldc[i].source_chain_id == ch;
                assert(newc[i].source_chain_id == ch);
            }
            if store.spec_has_counter(ch) {
                let i = choose|i: int| 0 <= i < newc.len() && newc[i].source_chain_id == ch;
                assert(i < n);
                assert(oldc[i].source_chain_id == ch);
            }
        }
        assert forall|ch: u64|
            ch != source_chain_id && old(store).spec_has_counter(ch) implies store.spec_watermark(
            ch,
        ) == old(store).spec_watermark(ch) by {
            let i = choose|i: int| 0 <= i < oldc.len() && oldc[i].source_chain_id == ch;
            lemma_watermark_at(*old(store), i);
            assert(newc[i].source_chain_id == ch);
            lemma_watermark_at(*store, i);
        }
    }
    Ok(())
}

/// The error, if any, a claim is rejected with: oversized fields, then
/// the lighter claim-phase signature check over the recomputed digest,
/// then an already-existing record for the key.
pub open spec fn spec_claim_error(
    tx_id: u128,
    source_chain_id: u64,
    dest_chain_id: u64,
    sender: Seq<u8>,
    recipient: Seq<u8>,
    on_chain_data: Seq<u8>,
    off_chain_data: Seq<u8>,
    sigs: Seq<MessageSignature>,
    ctx: Seq<InstructionRecord>,
    store: ReplayStore,
) -> Option<GatewayError> {
    if !spec_sizes_ok(sender, recipient, on_chain_data, off_chain_data) {
        Some(GatewayError::OversizedField)
    } else {
        let digest = spec_message_digest(
            tx_id,
            source_chain_id,
            dest_chain_id,
            sender,
            recipient,
            on_chain_data,
            off_chain_data,
        );
        match spec_claim_auth_error(sigs, digest, ctx) {
            Some(e) => Some(e),
            None => if store.spec_is_claimed(source_chain_id, tx_id) {
                Some(GatewayError::AlreadyClaimed)
            } else {
                None
            },
        }
    }
}

/// The watermark of `source_chain_id` after a successful claim of
/// `tx_id`: the maximum of the previous watermark and the claimed id,
/// starting at the claimed id the first time the chain is seen.
pub open spec fn spec_updated_watermark(
    store: ReplayStore,
    source_chain_id: u64,
    tx_id: u128,
) -> u128 {
    if store.spec_has_counter(source_chain_id) {
        if tx_id > store.spec_watermark(source_chain_id) {
            tx_id
        } else {
            store.spec_watermark(source_chain_id)
        }
    } else {
        tx_id
    }
}

/// Phase one: claims a `(source chain, transaction id)` key. The
/// envelope is re-hashed and at least one submitted signature must be
/// attested by the transaction; a key can be claimed at most once.
/// A successful claim also raises the source chain's watermark to the
/// claimed id if it exceeds the current one.
pub fn create_tx_pda(
    store: &mut ReplayStore,
    tx_id: u128,
    source_chain_id: u64,
    dest_chain_id: u64,
    sender: &[u8],
    recipient: &[u8],
    on_chain_data: &[u8],
    off_chain_data: &[u8],
    signatures: &Vec<MessageSignature>,
    instruction_context: &Vec<InstructionRecord>,
) -> (r: Result<TxPdaCreated, GatewayError>)
    requires
        old(store).wf(),
    ensures
        final(store).wf(),
        match spec_claim_error(
            tx_id,
            source_chain_id,
            dest_chain_id,
            sender@,
            recipient@,
            on_chain_data@,
            off_chain_data@,
            signatures@,
            instruction_context@,
            *old(store),
        ) {
            Some(e) => r == Err::<TxPdaCreated, GatewayError>(e) && *final(store) == *old(store),
            None => {
                &&& r == Ok::<TxPdaCreated, GatewayError>(
                    TxPdaCreated { tx_id, source_chain_id },
                )
                &&& forall|s: u64, t: u128|
                    final(store).spec_is_claimed(s, t) == (old(store).spec_is_claimed(s, t) || (s
                        == source_chain_id && t == tx_id))
                &&& final(store).spec_has_counter(source_chain_id)
                &&& final(store).spec_watermark(source_chain_id) == spec_updated_watermark(
                    *old(store),
                    source_chain_id,
                    tx_id,
                )
                &&& forall|ch: u64|
                    ch != source_chain_id ==> final(store).spec_has_counter(ch)
                        == old(store).spec_has_counter(ch)
                &&& forall|ch: u64|
                    ch != source_chain_id && old(store).spec_has_counter(ch)
                        ==> final(store).spec_watermark(ch) == old(store).spec_watermark(ch)
            },
        },
{
    if sender.len() > MAX_SENDER_SIZE {
        return Err(GatewayError::OversizedField);
    }
    if recipient.len() > MAX_RECIPIENT_SIZE {
        return Err(GatewayError::OversizedField);
    }
    if on_chain_data.len() > MAX_ON_CHAIN_DATA_SIZE {
        return Err(GatewayError::OversizedField);
    }
    if off_chain_data.len() > MAX_OFF_CHAIN_DATA_SIZE {
        return Err(GatewayError::OversizedField);
    }

    let message_hash = match create_message_hash_for_signing(
        tx_id,
        source_chain_id,
        dest_chain_id,
        sender,
        recipient,
        on_chain_data,
        off_chain_data,
    ) {
        Ok(h) => h,
        Err(e) => {
            return Err(e);
        },
    };

    match validate_signatures_tx1(signatures, &message_hash, instruction_context) {
        Ok(_) => {},
        Err(e) => {
            return Err(e);
        },
    }

    if find_claim_index(&store.claims, source_chain_id, tx_id).is_some() {
        return Err(GatewayError::AlreadyClaimed);
    }

    store.claims.push(ClaimEntry { source_chain_id, record: TxIdPDA { tx_id } });
    proof {
        let oldc = old(store).claims@;
        let newc = store.claims@;
        let n = oldc.len() as int;
        assert forall|s: u64, t: u128| store.spec_is_claimed(s, t) == (old(
            store,
        ).spec_is_claimed(s, t) || (s == source_chain_id && t == tx_id)) by {
            if old(store).spec_is_claimed(s, t) {
                let i = choose|i: int|
                    0 <= i < oldc.len() && oldc[i].source_chain_id == s && oldc[i].record.tx_id
                        == t;
                assert(newc[i].source_chain_id == s && newc[i].record.tx_id == t);
            }
            if s == source_chain_id && t == tx_id {
                assert(newc[n].source_chain_id == s && newc[n].record.tx_id == t);
            }
            if store.spec_is_claimed(s, t) {
                let i = choose|i: int|
                    0 <= i < newc.len() && newc[i].source_chain_id == s && newc[i].record.tx_id
                        == t;
                if i < n {
                    assert(oldc[i].source_chain_id == s && oldc[i].record.tx_id == t);
                }
            }
        }
    }

    match find_counter_index(&store.counters, source_chain_id) {
        Some(ci) => {
            proof {
                lemma_watermark_at(*store, ci as int);
            }
            if tx_id > store.counters[ci].highest_tx_id_seen {
                store.counters[ci].highest_tx_id_seen = tx_id;
            }
            proof {
                let oldk = old(store).counters@;
                let newk = store.counters@;
                lemma_watermark_at(*store, ci as int);
                assert forall|ch: u64| ch != source_chain_id implies store.spec_has_counter(ch)
                    == old(store).spec_has_counter(ch) by {
                    if old(store).spec_has_counter(ch) {
                        let i = choose|i: int|
                            0 <= i < oldk.len() && oldk[i].source_chain_id == ch;
                        assert(newk[i].source_chain_id == ch);
                    }
                    if store.spec_has_counter(ch) {
                        let i = choose|i: int|
                            0 <= i < newk.len() && newk[i].source_chain_id == ch;
                        assert(oldk[i].source_chain_id == ch);
                    }
                }
                assert forall|ch: u64|
                    ch != source_chain_id && old(store).spec_has_counter(
                        ch,
                    ) implies store.spec_watermark(ch) == old(store).spec_watermark(ch) by {
                    let i = choose|i: int| 0 <= i < oldk.len() && oldk[i].source_chain_id == ch;
                    lemma_watermark_at(*old(store), i);
                    assert(i != ci as int);
                    assert(newk[i] == oldk[i]);
                    lemma_watermark_at(*store, i);
                }
            }
        },
        None => {
            store.counters.push(CounterPDA { source_chain_id, highest_tx_id_seen: tx_id });
            proof {
                let oldk = old(store).counters@;
                let newk = store.counters@;
                let m = oldk.len() as int;
                assert(newk[m].source_chain_id == source_chain_id);
                lemma_watermark_at(*store, m);
                assert forall|ch: u64| ch != source_chain_id implies store.spec_has_counter(ch)
                    == old(store).spec_has_counter(ch) by {
                    if old(store).spec_has_counter(ch) {
                        let i = choose|i: int|
                            0 <= i < oldk.len() && oldk[i].source_chain_id == ch;
                        assert(newk[i].source_chain_id == ch);
                    }
                    if store.spec_has_counter(ch) {
                        let i = choose|i: int|
                            0 <= i < newk.len() && newk[i].source_chain_id == ch;
                        assert(i < m);
                        assert(oldk[i].source_chain_id == ch);
                    }
                }
                assert forall|ch: u64|
                    ch != source_chain_id && old(store).spec_has_counter(
                        ch,
                    ) implies store.spec_watermark(ch) == old(store).spec_watermark(ch) by {
                    let i = choose|i: int| 0 <= i < oldk.len() && oldk[i].source_chain_id == ch;
                    lemma_watermark_at(*old(store), i);
                    assert(newk[i].source_chain_id == ch);
                    lemma_watermark_at(*store, i);
                }
            }
        },
    }

    Ok(TxPdaCreated { tx_id, source_chain_id })
}

/// The error, if any, a consumption is rejected with: a disabled
/// gateway, a destination chain other than the gateway's own,
/// oversized fields, a missing claim record, then any failure of the
/// full three-tier authorization over the recomputed digest.
pub open spec fn spec_consume_error(
    tx_id: u128,
    source_chain_id: u64,
    dest_chain_id: u64,
    sender: Seq<u8>,
    recipient: Seq<u8>,
    on_chain_data: Seq<u8>,
    off_chain_data: Seq<u8>,
    sigs: Seq<MessageSignature>,
    p: SignerRegistry,
    c: SignerRegistry,
    pr: Option<&SignerRegistry>,
    ctx: Seq<InstructionRecord>,
    gateway: MessageGateway,
    store: ReplayStore,
) -> Option<GatewayError> {
    if !gateway.system_enabled {
        Some(GatewayError::SystemDisabled)
    } else if dest_chain_id != gateway.chain_id {
        Some(GatewayError::ChainMismatch)
    } else if !spec_sizes_ok(sender, recipient, on_chain_data, off_chain_data) {
        Some(GatewayError::OversizedField)
    } else if !store.spec_is_claimed(source_chain_id, tx_id) {
        Some(GatewayError::NoSuchClaim)
    } else {
        let digest = spec_message_digest(
            tx_id,
            source_chain_id,
            dest_chain_id,
            sender,
            recipient,
            on_chain_data,
            off_chain_data,
        );
        spec_validate_error(sigs, digest, p, c, pr, ctx)
    }
}

/// Phase two: consumes a claimed key. The destination gateway must be
/// enabled and own the destination chain; the envelope is re-hashed
/// and the full three-tier authorization must pass; only then is the
/// claim record destroyed, atomically with success. On any failure the
/// record stays, so a retry with corrected signatures remains
/// possible.
pub fn process_message(
    store: &mut ReplayStore,
    gateway: &MessageGateway,
    tx_id: u128,
    source_chain_id: u64,
    dest_chain_id: u64,
    sender: &[u8],
    recipient: &[u8],
    on_chain_data: &[u8],
    off_chain_data: &[u8],
    signatures: &Vec<MessageSignature>,
    platform_registry: &SignerRegistry,
    chain_registry: &SignerRegistry,
    project_registry: Option<&SignerRegistry>,
    relayer: [u8; 32],
    instruction_context: &Vec<InstructionRecord>,
) -> (r: Result<(ValidationResult, MessageProcessed), GatewayError>)
    requires
        old(store).wf(),
    ensures
        final(store).wf(),
        match spec_consume_error(
            tx_id,
            source_chain_id,
            dest_chain_id,
            sender@,
            recipient@,
            on_chain_data@,
            off_chain_data@,
            signatures@,
            *platform_registry,
            *chain_registry,
            project_registry,
            instruction_context@,
            *gateway,
            *old(store),
        ) {
            Some(e) => r == Err::<(ValidationResult, MessageProcessed), GatewayError>(e)
                && *final(store) == *old(store),
            None => {
                &&& r matches Ok(ok)
                &&& ok.0 == spec_validation_counts(
                    signatures@,
                    *platform_registry,
                    *chain_registry,
                    project_registry,
                )
                &&& ok.1.tx_id == tx_id
                &&& ok.1.source_chain_id == source_chain_id
                &&& ok.1.relayer == relayer
                &&& forall|s: u64, t: u128|
                    final(store).spec_is_claimed(s, t) == (old(store).spec_is_claimed(s, t) && !(s
                        == source_chain_id && t == tx_id))
                &&& final(store).counters@ == old(store).counters@
            },
        },
{
    if !gateway.system_enabled {
        return Err(GatewayError::SystemDisabled);
    }
    if dest_chain_id != gateway.chain_id {
        return Err(GatewayError::ChainMismatch);
    }
    if sender.len() > MAX_SENDER_SIZE {
        return Err(GatewayError::OversizedField);
    }
    if recipient.len() > MAX_RECIPIENT_SIZE {
        return Err(GatewayError::OversizedField);
    }
    if on_chain_data.len() > MAX_ON_CHAIN_DATA_SIZE {
        return Err(GatewayError::OversizedField);
    }
    if off_chain_data.len() > MAX_OFF_CHAIN_DATA_SIZE {
        return Err(GatewayError::OversizedField);
    }

    let idx = match find_claim_index(&store.claims, source_chain_id, tx_id) {
        Some(i) => i,
        None => {
            return Err(GatewayError::NoSuchClaim);
        },
    };

    let message_hash = match create_message_hash_for_signing(
        tx_id,
        source_chain_id,
        dest_chain_id,
        sender,
        recipient,
        on_chain_data,
        off_chain_data,
    ) {
        Ok(h) => h,
        Err(e) => {
            return Err(e);
        },
    };

    let validation_result = match validate_three_layer_signatures(
        signatures,
        &message_hash,
        platform_registry,
        chain_registry,
        project_registry,
        instruction_context,
    ) {
        Ok(v) => v,
        Err(e) => {
            return Err(e);
        },
    };

    store.claims.remove(idx);
    proof {
        let oldc = old(store).claims@;
        let newc = store.claims@;
        let k = idx as int;
        assert forall|i: int, j: int|
            #![trigger newc[i], newc[j]]
            0 <= i < j < newc.len() implies !(newc[i].source_chain_id == newc[j].source_chain_id
            && newc[i].record.tx_id == newc[j].record.tx_id) by {
            let i0 = if i < k {
                i
            } else {
                i + 1
            };
            let j0 = if j < k {
                j
            } else {
                j + 1
            };
            assert(newc[i] == oldc[i0]);
            assert(newc[j] == oldc[j0]);
        }
        assert forall|s: u64, t: u128| store.spec_is_claimed(s, t) == (old(
            store,
        ).spec_is_claimed(s, t) && !(s == source_chain_id && t == tx_id)) by {
            if store.spec_is_claimed(s, t) {
                let i = choose|i: int|
                    0 <= i < newc.len() && newc[i].source_chain_id == s && newc[i].record.tx_id
                        == t;
                let i0 = if i < k {
                    i
                } else {
                    i + 1
                };
                assert(newc[i] == oldc[i0]);
                assert(oldc[i0].source_chain_id == s && oldc[i0].record.tx_id == t);
                if s == source_chain_id && t == tx_id {
                    assert(oldc[k].source_chain_id == s && oldc[k].record.tx_id == t);
                    assert(i0 != k);
                    assert(false);
                }
            }
            if old(store).spec_is_claimed(s, t) && !(s == source_chain_id && t == tx_id) {
                let i0 = choose|i: int|
                    0 <= i < oldc.len() && oldc[i].source_chain_id == s && oldc[i].record.tx_id
                        == t;
                assert(i0 != k);
                let i = if i0 < k {
                    i0
                } else {
                    i0 - 1
                };
                assert(newc[i] == oldc[i0]);
                assert(newc[i].source_chain_id == s && newc[i].record.tx_id == t);
            }
        }
    }

    Ok((validation_result, MessageProcessed { tx_id, source_chain_id, relayer }))
}

/// Law: at most one claim can ever succeed per key. Once a record for
/// `(source_chain_id, tx_id)` is live, a claim for the same key whose
/// inputs pass every earlier check is still rejected, with
/// `AlreadyClaimed`; and since consumption removes exactly its own key
/// (see [`process_message`]), consuming a different transaction id on
/// the same chain never reopens this one.
pub proof fn lemma_second_claim_fails(
    tx_id: u128,
    source_chain_id: u64,
    dest_chain_id: u64,
    sender: Seq<u8>,
    recipient: Seq<u8>,
    on_chain_data: Seq<u8>,
    off_chain_data: Seq<u8>,
    sigs: Seq<MessageSignature>,
    ctx: Seq<InstructionRecord>,
    store: ReplayStore,
)
    requires
        store.spec_is_claimed(source_chain_id, tx_id),
        spec_sizes_ok(sender, recipient, on_chain_data, off_chain_data),
        spec_claim_auth_error(
            sigs,
            spec_message_digest(
                tx_id,
                source_chain_id,
                dest_chain_id,
                sender,
                recipient,
                on_chain_data,
                off_chain_data,
            ),
            ctx,
        ) is None,
    ensures
        spec_claim_error(
            tx_id,
            source_chain_id,
            dest_chain_id,
            sender,
            recipient,
            on_chain_data,
            off_chain_data,
            sigs,
            ctx,
            store,
        ) == Some(GatewayError::AlreadyClaimed),
{
}

/// Law: consumption is not idempotent. Once the claim record of
/// `(source_chain_id, tx_id)` is gone — in particular right after a
/// successful consumption, which removes it — repeating the same
/// consumption is rejected with `NoSuchClaim`, whatever the
/// signatures.
pub proof fn lemma_repeat_consume_fails(
    tx_id: u128,
    source_chain_id: u64,
    dest_chain_id: u64,
    sender: Seq<u8>,
    recipient: Seq<u8>,
    on_chain_data: Seq<u8>,
    off_chain_data: Seq<u8>,
    sigs: Seq<MessageSignature>,
    p: SignerRegistry,
    c: SignerRegistry,
    pr: Option<&SignerRegistry>,
    ctx: Seq<InstructionRecord>,
    gateway: MessageGateway,
    store: ReplayStore,
)
    requires
        gateway.system_enabled,
        dest_chain_id == gateway.chain_id,
        spec_sizes_ok(sender, recipient, on_chain_data, off_chain_data),
        !store.spec_is_claimed(source_chain_id, tx_id),
    ensures
        spec_consume_error(
            tx_id,
            source_chain_id,
            dest_chain_id,
            sender,
            recipient,
            on_chain_data,
            off_chain_data,
            sigs,
            p,
            c,
            pr,
            ctx,
            gateway,
            store,
        ) == Some(GatewayError::NoSuchClaim),
{
}

/// The watermark a chain reaches after claiming `txs` in order,
/// starting from a chain never seen before: each successful claim
/// raises it to the claimed id when that exceeds it, exactly as
/// [`create_tx_pda`] updates the counter.
pub open spec fn spec_running_watermark(txs: Seq<u128>) -> u128
    decreases txs.len(),
{
    if txs.len() == 0 {
        0
    } else {
        let prev = spec_running_watermark(txs.drop_last());
        if txs.last() > prev {
            txs.last()
        } else {
            prev
        }
    }
}

/// One claim folds one step of the running watermark: if a chain's
/// counter reads the running watermark of the ids claimed so far (or
/// the chain is unseen and nothing was claimed), then after claiming
/// `tx_id` the chain's watermark reads the running watermark extended
/// with `tx_id`.
pub proof fn lemma_watermark_step(
    store: ReplayStore,
    source_chain_id: u64,
    txs: Seq<u128>,
    tx_id: u128,
)
    requires
        store.spec_has_counter(source_chain_id) ==> store.spec_watermark(source_chain_id)
            == spec_running_watermark(txs),
        !store.spec_has_counter(source_chain_id) ==> txs.len() == 0,
    ensures
        spec_updated_watermark(store, source_chain_id, tx_id) == spec_running_watermark(
            txs.push(tx_id),
        ),
{
    let ext = txs.push(tx_id);
    assert(ext.drop_last() =~= txs);
    assert(ext.last() == tx_id);
    assert(spec_running_watermark(ext) == (if tx_id > spec_running_watermark(txs) {
        tx_id
    } else {
        spec_running_watermark(txs)
    }));
    if !store.spec_has_counter(source_chain_id) {
        assert(spec_running_watermark(txs) == 0);
    }
}

/// Law: after any number of claims on one chain the watermark equals
/// the maximum claimed id, regardless of the order in which the ids
/// were claimed: the running watermark bounds every claimed id and is
/// itself one of them.
pub proof fn lemma_watermark_is_max(txs: Seq<u128>)
    ensures
        forall|i: int| 0 <= i < txs.len() ==> txs[i] <= spec_running_watermark(txs),
        txs.len() > 0 ==> exists|i: int|
            0 <= i < txs.len() && txs[i] == spec_running_watermark(txs),
    decreases txs.len(),
{
    if txs.len() > 0 {
        let prev = txs.drop_last();
        lemma_watermark_is_max(prev);
        let run = spec_running_watermark(txs);
        assert forall|i: int| 0 <= i < txs.len() implies txs[i] <= run by {
            if i < txs.len() - 1 {
                assert(txs[i] == prev[i]);
                assert(prev[i] <= spec_running_watermark(prev));
            }
        }
        if txs.last() > spec_running_watermark(prev) {
            assert(txs[txs.len() - 1] == run);
        } else if prev.len() == 0 {
            assert(run == 0);
            assert(txs.last() <= 0);
            assert(txs[txs.len() - 1] == run);
        } else {
            let j = choose|j: int|
                0 <= j < prev.len() && prev[j] == spec_running_watermark(prev);
            assert(txs[j] == prev[j]);
            assert(txs[j] == run);
        }
    }
}

} // verus!
