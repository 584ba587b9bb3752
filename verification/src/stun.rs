//! Minimal STUN detector and parser: transaction bookkeeping for a STUN
//! flow, and recognition of a STUN message header.

use vstd::prelude::*;

use crate::applayer::{
    AppLayerResult, AppLayerTxData, AppProto, ParserSettings, RegistrationPlan, StreamSlice,
    ALPROTO_UNKNOWN, IPPROTO_UDP,
};
use crate::direction::Direction;

pub mod stun;

verus! {

/// Length of the fixed STUN message header.
pub const STUN_HEADER_LEN: usize = 20;

/// Value of the magic-cookie field (bytes 4..8 of the header, big-endian).
pub const STUN_MAGIC_COOKIE: u32 = 0x2112A442;

/// Progress value of a transaction that is complete.
pub const STUN_TX_PROGRESS_DONE: i32 = 1;

/// The number that four bytes denote when read most significant first.
pub open spec fn spec_be_u32(b0: u8, b1: u8, b2: u8, b3: u8) -> int {
    b0 as int * 0x100_0000 + b1 as int * 0x1_0000 + b2 as int * 0x100 + b3 as int
}

/// Reads four bytes as a big-endian `u32`.
pub fn be_u32(b0: u8, b1: u8, b2: u8, b3: u8) -> (r: u32)
    ensures
        r == spec_be_u32(b0, b1, b2, b3),
{
    (b0 as u32) * 0x100_0000 + (b1 as u32) * 0x1_0000 + (b2 as u32) * 0x100 + (b3 as u32)
}

/// A STUN message header: at least `STUN_HEADER_LEN` bytes, the two top
/// bits of the first byte clear, and the magic cookie in bytes 4..8.
pub open spec fn spec_is_stun_header(s: Seq<u8>) -> bool {
    &&& s.len() >= STUN_HEADER_LEN
    &&& s[0] & 0xC0 == 0
    &&& spec_be_u32(s[4], s[5], s[6], s[7]) == STUN_MAGIC_COOKIE
}

pub fn is_stun_header(slice: &[u8]) -> (r: bool)
    ensures
        r == spec_is_stun_header(slice@),
{
    if slice.len() < STUN_HEADER_LEN {
        return false;
    }
    if (slice[0] & 0xC0) != 0 {
        return false;
    }
    let magic = be_u32(slice[4], slice[5], slice[6], slice[7]);
    magic == STUN_MAGIC_COOKIE
}

/// The check on the first byte of a header says that it is below 64.
pub proof fn lemma_first_byte_check(b: u8)
    ensures
        (b & 0xC0 == 0) == (b < 64),
{
    assert((b & 0xC0 == 0) == (b < 64)) by (bit_vector);
}

/// What the probe answers for `input` (`None` when the engine handed over
/// no buffer at all).
pub open spec fn spec_probe(input: Option<Seq<u8>>, alproto_stun: AppProto) -> AppProto {
    match input {
        None => ALPROTO_UNKNOWN,
        Some(s) => if spec_is_stun_header(s) {
            alproto_stun
        } else {
            ALPROTO_UNKNOWN
        },
    }
}

/// Recognises a STUN header and answers with the protocol identifier
/// that registration obtained (`alproto_stun`), or `ALPROTO_UNKNOWN`.
pub fn stun_probing_parser(input: Option<&[u8]>, alproto_stun: AppProto) -> (r: AppProto)
    ensures
        r == spec_probe(
            match input {
                None => None,
                Some(s) => Some(s@),
            },
            alproto_stun,
        ),
{
    match input {
        None => ALPROTO_UNKNOWN,
        Some(slice) => {
            if is_stun_header(slice) {
                alproto_stun
            } else {
                ALPROTO_UNKNOWN
            }
        },
    }
}

/// One STUN transaction: a message seen in one direction.
pub struct StunTransaction {
    tx_data: AppLayerTxData,
    tx_id: u64,
}

impl StunTransaction {
    /// The transaction's id (ids start at 1).
    pub closed spec fn spec_id(&self) -> u64 {
        self.tx_id
    }

    /// The transaction's engine bookkeeping.
    pub closed spec fn data(&self) -> AppLayerTxData {
        self.tx_data
    }

    /// The transaction with this id and data.
    pub closed spec fn spec_new(id: u64, data: AppLayerTxData) -> StunTransaction {
        StunTransaction { tx_data: data, tx_id: id }
    }

    pub fn id(&self) -> (r: u64)
        ensures
            r == self.spec_id(),
    {
        self.tx_id
    }

    pub fn tx_data(&self) -> (r: &AppLayerTxData)
        ensures
            *r == self.data(),
    {
        &self.tx_data
    }

    /// Lends out the engine bookkeeping (the engine clears the update
    /// flags through it); the id stays as it is.
    pub fn tx_data_mut(&mut self) -> (r: &mut AppLayerTxData)
        ensures
            *r == old(self).data(),
            *final(self) == StunTransaction::spec_new(old(self).spec_id(), *final(r)),
    {
        &mut self.tx_data
    }
}

/// Transaction ids run strictly upwards through the list and all lie in
/// `1..=last`, so that `last + 1` is fresh.
pub open spec fn ids_well_formed(txs: Seq<StunTransaction>, last: u64) -> bool {
    &&& forall|i: int, j: int|
        0 <= i < j < txs.len() ==> #[trigger] txs[i].spec_id() < #[trigger] txs[j].spec_id()
    &&& forall|i: int| 0 <= i < txs.len() ==> 1 <= #[trigger] txs[i].spec_id() <= last
}

/// `txs` holds a transaction with this id.
pub open spec fn has_id(txs: Seq<StunTransaction>, id: int) -> bool {
    exists|i: int| 0 <= i < txs.len() && #[trigger] txs[i].spec_id() == id
}

/// `i` is the first position in `txs` of a transaction with this id.
pub open spec fn is_first_with_id(txs: Seq<StunTransaction>, id: int, i: int) -> bool {
    &&& 0 <= i < txs.len()
    &&& txs[i].spec_id() == id
    &&& forall|j: int| 0 <= j < i ==> #[trigger] txs[j].spec_id() != id
}

/// `post` is `pre` without its first transaction with this id, or `pre`
/// itself when there is none.
pub open spec fn frees_tx(pre: Seq<StunTransaction>, post: Seq<StunTransaction>, id: int) -> bool {
    if has_id(pre, id) {
        exists|i: int| is_first_with_id(pre, id, i) && post == pre.remove(i)
    } else {
        post == pre
    }
}

/// The per-flow state: the live transactions, oldest first, and the id
/// that was handed out last.
pub struct StunState {
    transactions: Vec<StunTransaction>,
    tx_id: u64,
}

/// `post` is `pre` with one more transaction at the end: it has the next
/// id and carries traffic in `direction`.
pub open spec fn adds_tx(pre: StunState, post: StunState, direction: Direction) -> bool {
    &&& post.last_id() == pre.last_id() + 1
    &&& post.txs() == pre.txs().push(
        StunTransaction::spec_new(
            post.last_id(),
            AppLayerTxData::spec_for_direction(direction).with_update(direction),
        ),
    )
}

impl Default for StunState {
    /// A state with no transactions and no ids handed out yet.
    fn default() -> (s: StunState)
        ensures
            s.wf(),
            s.last_id() == 0,
            s.txs() == Seq::<StunTransaction>::empty(),
    {
        StunState { transactions: Vec::new(), tx_id: 0 }
    }
}

impl StunState {
    /// The id that was handed out last (0 before the first transaction).
    pub closed spec fn last_id(&self) -> u64 {
        self.tx_id
    }

    /// The live transactions, oldest first.
    pub closed spec fn txs(&self) -> Seq<StunTransaction> {
        self.transactions@
    }

    pub open spec fn wf(&self) -> bool {
        ids_well_formed(self.txs(), self.last_id())
    }

    pub fn new() -> (s: StunState)
        ensures
            s.wf(),
            s.last_id() == 0,
            s.txs() == Seq::<StunTransaction>::empty(),
    {
        Self::default()
    }

    /// Hands out the next id in a new transaction, which is not stored.
    pub fn new_tx(&mut self, direction: Direction) -> (tx: StunTransaction)
        requires
            old(self).last_id() < u64::MAX,
        ensures
            final(self).last_id() == old(self).last_id() + 1,
            final(self).txs() == old(self).txs(),
            old(self).wf() ==> final(self).wf(),
            tx == StunTransaction::spec_new(
                final(self).last_id(),
                AppLayerTxData::spec_for_direction(direction),
            ),
    {
        self.tx_id = self.tx_id + 1;
        StunTransaction { tx_data: AppLayerTxData::for_direction(direction), tx_id: self.tx_id }
    }

    /// Stores a new transaction for a message seen in `direction`.
    pub fn add_tx(&mut self, direction: Direction)
        requires
            old(self).wf(),
            old(self).last_id() < u64::MAX,
        ensures
            final(self).wf(),
            adds_tx(*old(self), *final(self), direction),
    {
        let mut tx = self.new_tx(direction);
        tx.tx_data.mark_updated(direction);
        self.transactions.push(tx);
    }

    /// Drops every transaction; the id counter is kept.
    pub fn free(&mut self)
        ensures
            final(self).wf(),
            final(self).last_id() == old(self).last_id(),
            final(self).txs() == Seq::<StunTransaction>::empty(),
    {
        self.transactions.clear();
    }

    /// First position of a transaction with id `id`.
    fn position(&self, id: u64) -> (r: Option<usize>)
        ensures
            match r {
                Some(i) => is_first_with_id(self.txs(), id as int, i as int),
                None => !has_id(self.txs(), id as int),
            },
    {
        let mut i: usize = 0;
        while i < self.transactions.len()
            invariant
                i <= self.transactions@.len(),
                forall|j: int| 0 <= j < i ==> #[trigger] self.transactions@[j].spec_id() != id,
            decreases self.transactions@.len() - i,
        {
            if self.transactions[i].tx_id == id {
                return Some(i);
            }
            i = i + 1;
        }
        None
    }

    /// Frees the transaction that the engine numbers `tx_id`, i.e. the one
    /// whose id is `tx_id + 1`; nothing happens when there is none.
    pub fn free_tx(&mut self, tx_id: u64)
        requires
            tx_id < u64::MAX,
        ensures
            final(self).last_id() == old(self).last_id(),
            old(self).wf() ==> final(self).wf(),
            frees_tx(old(self).txs(), final(self).txs(), tx_id + 1),
    {
        if let Some(idx) = self.position(tx_id + 1) {
            let _tx = self.transactions.remove(idx);
        }
    }

    /// The transaction that the engine numbers `tx_id`, i.e. the first one
    /// whose id is `tx_id + 1`.
    pub fn get_tx_by_id(&mut self, tx_id: u64) -> (r: Option<&StunTransaction>)
        requires
            tx_id < u64::MAX,
        ensures
            *final(self) == *old(self),
            r is Some <==> has_id(old(self).txs(), tx_id + 1),
            r matches Some(t) ==> exists|i: int|
                is_first_with_id(old(self).txs(), tx_id + 1, i) && *t == old(self).txs()[i],
    {
        match self.position(tx_id + 1) {
            Some(idx) => Some(&self.transactions[idx]),
            None => None,
        }
    }

    /// The id that was handed out last.
    pub fn last_tx_id(&self) -> (r: u64)
        ensures
            r == self.last_id(),
    {
        self.tx_id
    }

    pub fn get_transaction_count(&self) -> (r: usize)
        ensures
            r == self.txs().len(),
    {
        self.transactions.len()
    }

    pub fn get_transaction_by_index(&self, index: usize) -> (r: Option<&StunTransaction>)
        ensures
            r is Some <==> index < self.txs().len(),
            r matches Some(t) ==> *t == self.txs()[index as int],
    {
        if index < self.transactions.len() {
            Some(&self.transactions[index])
        } else {
            None
        }
    }
}

/// Number of live transactions, as reported to the engine.
pub fn stun_state_get_tx_count(state: &StunState) -> (r: u64)
    ensures
        r == state.txs().len(),
{
    state.transactions.len() as u64
}

/// Every STUN transaction is complete as soon as it exists.
pub fn stun_tx_get_alstate_progress(_tx: &StunTransaction, _direction: u8) -> (r: i32)
    ensures
        r == STUN_TX_PROGRESS_DONE,
{
    STUN_TX_PROGRESS_DONE
}

/// Handles client-to-server data: every non-empty chunk is one new
/// transaction; an empty chunk changes nothing.
pub fn stun_parse_request(state: &mut StunState, stream_slice: &StreamSlice) -> (r:
    AppLayerResult)
    requires
        old(state).wf(),
        stream_slice.input_len != 0 ==> old(state).last_id() < u64::MAX,
    ensures
        r == AppLayerResult::spec_ok(),
        final(state).wf(),
        stream_slice.input_len == 0 ==> *final(state) == *old(state),
        stream_slice.input_len != 0 ==> adds_tx(*old(state), *final(state), Direction::ToServer),
{
    if stream_slice.is_empty() {
        return AppLayerResult::ok();
    }
    state.add_tx(Direction::ToServer);
    AppLayerResult::ok()
}

/// Handles server-to-client data: every non-empty chunk is one new
/// transaction; an empty chunk changes nothing.
pub fn stun_parse_response(state: &mut StunState, stream_slice: &StreamSlice) -> (r:
    AppLayerResult)
    requires
        old(state).wf(),
        stream_slice.input_len != 0 ==> old(state).last_id() < u64::MAX,
    ensures
        r == AppLayerResult::spec_ok(),
        final(state).wf(),
        stream_slice.input_len == 0 ==> *final(state) == *old(state),
        stream_slice.input_len != 0 ==> adds_tx(*old(state), *final(state), Direction::ToClient),
{
    if stream_slice.is_empty() {
        return AppLayerResult::ok();
    }
    state.add_tx(Direction::ToClient);
    AppLayerResult::ok()
}

/// The registration record of the STUN parser: UDP, ports 3478 and 3479,
/// a probe that needs a whole header and looks at no more than 256 bytes.
pub fn stun_parser_settings() -> (r: ParserSettings<'static>)
    ensures
        r.name@ == "stun"@,
        r.default_port@ == "3478,3479"@,
        r.ipproto == IPPROTO_UDP,
        r.min_depth == STUN_HEADER_LEN,
        r.max_depth == 256,
        r.tx_comp_st_ts == STUN_TX_PROGRESS_DONE,
        r.tx_comp_st_tc == STUN_TX_PROGRESS_DONE,
        r.flags == 0,
{
    ParserSettings {
        name: "stun",
        default_port: "3478,3479",
        ipproto: IPPROTO_UDP,
        min_depth: 20,
        max_depth: 256,
        tx_comp_st_ts: STUN_TX_PROGRESS_DONE,
        tx_comp_st_tc: STUN_TX_PROGRESS_DONE,
        flags: 0,
    }
}

/// Registration of the STUN parser: nothing at all when protocol
/// detection is disabled; otherwise the detector and the logger, and the
/// parser too when parsing is enabled.
pub fn stun_registration_plan(detection_enabled: bool, parser_enabled: bool) -> (r:
    RegistrationPlan)
    ensures
        r.register_detection == detection_enabled,
        r.register_parser == (detection_enabled && parser_enabled),
        r.register_logger == detection_enabled,
{
    if !detection_enabled {
        return RegistrationPlan {
            register_detection: false,
            register_parser: false,
            register_logger: false,
        };
    }
    RegistrationPlan {
        register_detection: true,
        register_parser: parser_enabled,
        register_logger: true,
    }
}

/// Ids are unique: two live transactions with the same id are the same
/// entry.
pub proof fn lemma_ids_unique(s: StunState, i: int, j: int)
    requires
        s.wf(),
        0 <= i < s.txs().len(),
        0 <= j < s.txs().len(),
        s.txs()[i].spec_id() == s.txs()[j].spec_id(),
    ensures
        i == j,
{
    if i < j {
        assert(s.txs()[i].spec_id() < s.txs()[j].spec_id());
    } else if j < i {
        assert(s.txs()[j].spec_id() < s.txs()[i].spec_id());
    }
}

/// The id handed out next belongs to no live transaction, so ids are
/// never reused.
pub proof fn lemma_next_id_is_fresh(s: StunState)
    requires
        s.wf(),
    ensures
        !has_id(s.txs(), s.last_id() + 1),
{
    assert forall|i: int| 0 <= i < s.txs().len() implies #[trigger] s.txs()[i].spec_id()
        != s.last_id() + 1 by {
        assert(s.txs()[i].spec_id() <= s.last_id());
    }
}

/// Once the transaction that the engine numbers `tx_id` is freed, looking
/// it up finds nothing, and exactly one transaction is gone when there was
/// one to free.
pub proof fn lemma_freed_tx_is_gone(pre: StunState, post: StunState, tx_id: u64)
    requires
        pre.wf(),
        tx_id < u64::MAX,
        frees_tx(pre.txs(), post.txs(), tx_id + 1),
    ensures
        !has_id(post.txs(), tx_id + 1),
        post.txs().len() == if has_id(pre.txs(), tx_id + 1) {
            pre.txs().len() - 1
        } else {
            pre.txs().len() as int
        },
{
    let id = tx_id + 1;
    if has_id(pre.txs(), id) {
        let i = choose|i: int| is_first_with_id(pre.txs(), id, i) && post.txs() == pre.txs().remove(i);
        assert forall|k: int| 0 <= k < post.txs().len() implies #[trigger] post.txs()[k].spec_id()
            != id by {
            let src = if k < i {
                k
            } else {
                k + 1
            };
            assert(post.txs()[k] == pre.txs()[src]);
            if pre.txs()[src].spec_id() == id {
                lemma_ids_unique(pre, src, i);
            }
        }
    }
}

/// A transaction appended with the next id is the one that the engine
/// finds under the number of ids handed out before.
pub proof fn lemma_appended_tx_is_found(pre: StunState, post: StunState, tx: StunTransaction)
    requires
        pre.wf(),
        post.last_id() == pre.last_id() + 1,
        tx.spec_id() == post.last_id(),
        post.txs() == pre.txs().push(tx),
    ensures
        post.wf(),
        is_first_with_id(post.txs(), pre.last_id() + 1, pre.txs().len() as int),
{
    assert forall|j: int| 0 <= j < pre.txs().len() implies #[trigger] post.txs()[j].spec_id()
        != pre.last_id() + 1 by {
        assert(post.txs()[j] == pre.txs()[j]);
    }
    assert forall|a: int, b: int| 0 <= a < b < post.txs().len() implies #[trigger] post.txs()[
        a].spec_id() < #[trigger] post.txs()[b].spec_id() by {
        assert(post.txs()[a] == pre.txs()[a]);
        if b < pre.txs().len() {
            assert(post.txs()[b] == pre.txs()[b]);
        }
    }
    assert forall|a: int| 0 <= a < post.txs().len() implies 1 <= #[trigger] post.txs()[
        a].spec_id() <= post.last_id() by {
        if a < pre.txs().len() {
            assert(post.txs()[a] == pre.txs()[a]);
        }
    }
}

/// A transaction added by a request or a response is the one that the
/// engine then finds under the number of ids handed out before.
pub proof fn lemma_added_tx_is_found(pre: StunState, post: StunState, direction: Direction)
    requires
        pre.wf(),
        adds_tx(pre, post, direction),
    ensures
        post.wf(),
        has_id(post.txs(), pre.last_id() + 1),
        is_first_with_id(post.txs(), pre.last_id() + 1, pre.txs().len() as int),
        post.txs().len() == pre.txs().len() + 1,
{
    let tx = StunTransaction::spec_new(
        post.last_id(),
        AppLayerTxData::spec_for_direction(direction).with_update(direction),
    );
    lemma_appended_tx_is_found(pre, post, tx);
    assert(post.txs()[pre.txs().len() as int].spec_id() == pre.last_id() + 1);
}


/// A transaction built from an id and data has that id and that data.
pub broadcast proof fn lemma_spec_new_fields(id: u64, data: AppLayerTxData)
    ensures
        #[trigger] StunTransaction::spec_new(id, data).spec_id() == id,
        StunTransaction::spec_new(id, data).data() == data,
{
}


/// Bytes 4..8 hold the magic cookie exactly when they are 21 12 A4 42.
pub proof fn lemma_cookie_bytes(b0: u8, b1: u8, b2: u8, b3: u8)
    ensures
        (spec_be_u32(b0, b1, b2, b3) == STUN_MAGIC_COOKIE) == (b0 == 0x21 && b1 == 0x12 && b2
            == 0xA4 && b3 == 0x42),
{
}

/// A buffer is recognised as a STUN header exactly when it has at least 20
/// bytes, its first byte is below 64 and bytes 4..8 are 21 12 A4 42,
/// whatever its length beyond that and whatever its other bytes.
pub proof fn lemma_header_by_bytes(s: Seq<u8>)
    ensures
        spec_is_stun_header(s) == (s.len() >= 20 && s[0] < 64 && s[4] == 0x21 && s[5] == 0x12
            && s[6] == 0xA4 && s[7] == 0x42),
{
    if s.len() >= 20 {
        lemma_first_byte_check(s[0]);
        lemma_cookie_bytes(s[4], s[5], s[6], s[7]);
    }
}

/// Trailing data never turns a recognised header into an unrecognised one.
pub proof fn lemma_header_ignores_trailing_data(s: Seq<u8>, t: Seq<u8>)
    requires
        spec_is_stun_header(s),
    ensures
        spec_is_stun_header(s + t),
        spec_probe(Some(s + t), 1) == spec_probe(Some(s), 1),
{
    lemma_header_by_bytes(s);
    lemma_header_by_bytes(s + t);
    assert((s + t)[0] == s[0] && (s + t)[4] == s[4] && (s + t)[5] == s[5] && (s + t)[6] == s[6]
        && (s + t)[7] == s[7]);
}

/// Recognition looks only at the length and at bytes 0, 4, 5, 6 and 7: two
/// buffers of at least 20 bytes that agree there get the same answer.
pub proof fn lemma_header_ignores_other_bytes(s: Seq<u8>, u: Seq<u8>, alproto_stun: AppProto)
    requires
        s.len() >= 20,
        u.len() >= 20,
        s[0] == u[0],
        s[4] == u[4],
        s[5] == u[5],
        s[6] == u[6],
        s[7] == u[7],
    ensures
        spec_is_stun_header(s) == spec_is_stun_header(u),
        spec_probe(Some(s), alproto_stun) == spec_probe(Some(u), alproto_stun),
{
    lemma_header_by_bytes(s);
    lemma_header_by_bytes(u);
}

/// The probe answers with the STUN protocol id exactly for buffers of at
/// least 20 bytes whose first byte is below 64 and whose bytes 4..8 are
/// 21 12 A4 42, and with `ALPROTO_UNKNOWN` otherwise.
pub proof fn lemma_probe_answer(s: Seq<u8>, alproto_stun: AppProto)
    ensures
        spec_probe(Some(s), alproto_stun) == if s.len() >= 20 && s[0] < 64 && s[4] == 0x21
            && s[5] == 0x12 && s[6] == 0xA4 && s[7] == 0x42 {
            alproto_stun
        } else {
            ALPROTO_UNKNOWN
        },
        spec_probe(None, alproto_stun) == ALPROTO_UNKNOWN,
{
    lemma_header_by_bytes(s);
}

} // verus!
