//! STUN over UDP and TCP: one transaction per flow side that is reused
//! for every message in that direction, and a header probe.

use vstd::prelude::*;

use crate::applayer::{
    AppLayerResult, AppLayerTxData, AppProto, ParserSettings, RegistrationPlan, StreamSlice,
    ALPROTO_UNKNOWN, APP_LAYER_TX_SKIP_INSPECT_FLAG,
};
use crate::direction::Direction;
use crate::stun::{be_u32, spec_be_u32, STUN_HEADER_LEN, STUN_MAGIC_COOKIE};

verus! {

/// One STUN transaction.
pub struct StunTransaction {
    tx_id: u64,
    tx_data: AppLayerTxData,
}

impl StunTransaction {
    /// The transaction's id (ids start at 1).
    pub closed spec fn spec_id(&self) -> u64 {
        self.tx_id
    }

    /// The transaction's engine bookkeeping.
    pub closed spec fn data(&self) -> AppLayerTxData {
        self.tx_data
    }

    /// The transaction with this id and data.
    pub closed spec fn spec_new(id: u64, data: AppLayerTxData) -> StunTransaction {
        StunTransaction { tx_id: id, tx_data: data }
    }

    /// The same transaction, marked as updated in `direction`.
    pub closed spec fn updated(self, direction: Direction) -> StunTransaction {
        StunTransaction { tx_id: self.tx_id, tx_data: self.tx_data.with_update(direction) }
    }

    pub fn new(id: u64, direction: Direction) -> (tx: StunTransaction)
        ensures
            tx == StunTransaction::spec_new(id, AppLayerTxData::spec_for_direction(direction)),
    {
        let tx_data = AppLayerTxData::for_direction(direction);
        StunTransaction { tx_id: id, tx_data }
    }

    pub fn id(&self) -> (r: u64)
        ensures
            r == self.spec_id(),
    {
        self.tx_id
    }

    pub fn tx_data(&self) -> (r: &AppLayerTxData)
        ensures
            *r == self.data(),
    {
        &self.tx_data
    }

    /// Lends out the engine bookkeeping (the engine clears the update
    /// flags through it); the id stays as it is.
    pub fn tx_data_mut(&mut self) -> (r: &mut AppLayerTxData)
        ensures
            *r == old(self).data(),
            *final(self) == StunTransaction::spec_new(old(self).spec_id(), *final(r)),
    {
        &mut self.tx_data
    }
}

/// Transaction ids run strictly upwards through the list and all lie in
/// `1..=last`, so that `last + 1` is fresh.
pub open spec fn ids_well_formed(txs: Seq<StunTransaction>, last: u64) -> bool {
    &&& forall|i: int, j: int|
        0 <= i < j < txs.len() ==> #[trigger] txs[i].spec_id() < #[trigger] txs[j].spec_id()
    &&& forall|i: int| 0 <= i < txs.len() ==> 1 <= #[trigger] txs[i].spec_id() <= last
}

/// `txs` holds a transaction with this id.
pub open spec fn has_id(txs: Seq<StunTransaction>, id: int) -> bool {
    exists|i: int| 0 <= i < txs.len() && #[trigger] txs[i].spec_id() == id
}

/// `i` is the first position in `txs` of a transaction with this id.
pub open spec fn is_first_with_id(txs: Seq<StunTransaction>, id: int, i: int) -> bool {
    &&& 0 <= i < txs.len()
    &&& txs[i].spec_id() == id
    &&& forall|j: int| 0 <= j < i ==> #[trigger] txs[j].spec_id() != id
}

/// `post` is `pre` without its first transaction with this id, or `pre`
/// itself when there is none.
pub open spec fn frees_tx(pre: Seq<StunTransaction>, post: Seq<StunTransaction>, id: int) -> bool {
    if has_id(pre, id) {
        exists|i: int| is_first_with_id(pre, id, i) && post == pre.remove(i)
    } else {
        post == pre
    }
}

/// The per-flow state: the live transactions, oldest first, and the id
/// that was handed out last.
pub struct StunState {
    tx_id: u64,
    transactions: Vec<StunTransaction>,
}

impl Default for StunState {
    /// A state with no transactions and no ids handed out yet.
    fn default() -> (s: StunState)
        ensures
            s.wf(),
            s.last_id() == 0,
            s.txs() == Seq::<StunTransaction>::empty(),
    {
        StunState { tx_id: 0, transactions: Vec::new() }
    }
}

impl StunState {
    /// The id that was handed out last (0 before the first transaction).
    pub closed spec fn last_id(&self) -> u64 {
        self.tx_id
    }

    /// The live transactions, oldest first.
    pub closed spec fn txs(&self) -> Seq<StunTransaction> {
        self.transactions@
    }

    pub open spec fn wf(&self) -> bool {
        ids_well_formed(self.txs(), self.last_id())
    }

    pub fn new() -> (s: StunState)
        ensures
            s.wf(),
            s.last_id() == 0,
            s.txs() == Seq::<StunTransaction>::empty(),
    {
        Self::default()
    }

    /// Appends a transaction with the next id for `direction` and lends it
    /// out. The state stays well formed as long as the borrower leaves the
    /// transaction's id alone.
    pub fn alloc_tx(&mut self, direction: Direction) -> (tx: &mut StunTransaction)
        requires
            old(self).last_id() < u64::MAX,
        ensures
            final(self).last_id() == old(self).last_id() + 1,
            *tx == StunTransaction::spec_new(
                final(self).last_id(),
                AppLayerTxData::spec_for_direction(direction),
            ),
            final(self).txs() == old(self).txs().push(*final(tx)),
            old(self).wf() && final(tx).spec_id() == tx.spec_id() ==> final(self).wf(),
    {
        self.tx_id = self.tx_id + 1;
        self.transactions.push(StunTransaction::new(self.tx_id, direction));
        let last = self.transactions.len() - 1;
        &mut self.transactions[last]
    }

    /// The newest transaction, allocated first when there is none.
    pub fn ensure_tx(&mut self, direction: Direction) -> (tx: &mut StunTransaction)
        requires
            old(self).txs().len() == 0 ==> old(self).last_id() < u64::MAX,
        ensures
            old(self).txs().len() == 0 ==> {
                &&& final(self).last_id() == old(self).last_id() + 1
                &&& *tx == StunTransaction::spec_new(
                    final(self).last_id(),
                    AppLayerTxData::spec_for_direction(direction),
                )
                &&& final(self).txs() == seq![*final(tx)]
            },
            old(self).txs().len() > 0 ==> {
                &&& final(self).last_id() == old(self).last_id()
                &&& *tx == old(self).txs().last()
                &&& final(self).txs() == old(self).txs().update(
                    old(self).txs().len() - 1,
                    *final(tx),
                )
            },
            old(self).wf() && final(tx).spec_id() == tx.spec_id() ==> final(self).wf(),
    {
        if self.transactions.is_empty() {
            return self.alloc_tx(direction);
        }
        let last = self.transactions.len() - 1;
        &mut self.transactions[last]
    }

    /// First position of a transaction with id `id`.
    fn position(&self, id: u64) -> (r: Option<usize>)
        ensures
            match r {
                Some(i) => is_first_with_id(self.txs(), id as int, i as int),
                None => !has_id(self.txs(), id as int),
            },
    {
        let mut i: usize = 0;
        while i < self.transactions.len()
            invariant
                i <= self.transactions@.len(),
                forall|j: int| 0 <= j < i ==> #[trigger] self.transactions@[j].spec_id() != id,
            decreases self.transactions@.len() - i,
        {
            if self.transactions[i].tx_id == id {
                return Some(i);
            }
            i = i + 1;
        }
        None
    }

    /// Lends out the transaction that the engine numbers `tx_id`, i.e. the
    /// first one whose id is `tx_id + 1`.
    pub fn get_tx(&mut self, tx_id: u64) -> (r: Option<&mut StunTransaction>)
        requires
            tx_id < u64::MAX,
        ensures
            final(self).last_id() == old(self).last_id(),
            r is Some <==> has_id(old(self).txs(), tx_id + 1),
            r is None ==> final(self).txs() == old(self).txs(),
            r is Some ==> exists|i: int|
                {
                    &&& is_first_with_id(old(self).txs(), tx_id + 1, i)
                    &&& *r.unwrap() == old(self).txs()[i]
                    &&& final(self).txs() == old(self).txs().update(i, *final(r.unwrap()))
                },
            old(self).wf() && (r is Some ==> final(r.unwrap()).spec_id() == r.unwrap().spec_id())
                ==> final(self).wf(),
    {
        match self.position(tx_id + 1) {
            Some(idx) => Some(&mut self.transactions[idx]),
            None => None,
        }
    }

    /// Frees the transaction that the engine numbers `tx_id`, i.e. the one
    /// whose id is `tx_id + 1`; nothing happens when there is none.
    pub fn free_tx(&mut self, tx_id: u64)
        requires
            tx_id < u64::MAX,
        ensures
            final(self).last_id() == old(self).last_id(),
            old(self).wf() ==> final(self).wf(),
            frees_tx(old(self).txs(), final(self).txs(), tx_id + 1),
    {
        if let Some(index) = self.position(tx_id + 1) {
            let _tx = self.transactions.remove(index);
        }
    }

    /// The id that was handed out last.
    pub fn last_tx_id(&self) -> (r: u64)
        ensures
            r == self.last_id(),
    {
        self.tx_id
    }

    pub fn get_transaction_count(&self) -> (r: usize)
        ensures
            r == self.txs().len(),
    {
        self.transactions.len()
    }

    pub fn get_transaction_by_index(&self, index: usize) -> (r: Option<&StunTransaction>)
        ensures
            r is Some <==> index < self.txs().len(),
            r matches Some(t) ==> *t == self.txs()[index as int],
    {
        if index < self.transactions.len() {
            Some(&self.transactions[index])
        } else {
            None
        }
    }
}

/// Number of live transactions, as reported to the engine.
pub fn stun_state_get_tx_count(state: &StunState) -> (r: u64)
    ensures
        r == state.txs().len(),
{
    state.transactions.len() as u64
}

/// Every STUN transaction is complete as soon as it exists.
pub fn stun_tx_get_alstate_progress(_tx: &StunTransaction, _direction: u8) -> (r: i32)
    ensures
        r == 1,
{
    1
}

/// The probe accepts a buffer that is long enough for a header, whose
/// first byte has its two top bits clear, and that carries the magic
/// cookie in bytes 4..8.
pub open spec fn spec_probe_accepts(data: Seq<u8>) -> bool {
    &&& data.len() >= STUN_HEADER_LEN
    &&& data[0] & 0xC0 == 0
    &&& data.len() >= 8
    &&& spec_be_u32(data[4], data[5], data[6], data[7]) == STUN_MAGIC_COOKIE
}

/// What the probe answers for `input` (`None` when the engine handed over
/// no buffer at all).
pub open spec fn spec_probe(input: Option<Seq<u8>>, alproto_stun: AppProto) -> AppProto {
    match input {
        None => ALPROTO_UNKNOWN,
        Some(data) => if spec_probe_accepts(data) {
            alproto_stun
        } else {
            ALPROTO_UNKNOWN
        },
    }
}

/// Recognises a STUN header and answers with the protocol identifier that
/// registration obtained (`alproto_stun`), or `ALPROTO_UNKNOWN`.
pub fn stun_probe(input: Option<&[u8]>, alproto_stun: AppProto) -> (r: AppProto)
    ensures
        r == spec_probe(
            match input {
                None => None,
                Some(data) => Some(data@),
            },
            alproto_stun,
        ),
{
    let data = match input {
        None => {
            return ALPROTO_UNKNOWN;
        },
        Some(data) => data,
    };
    if data.len() < 20 {
        return ALPROTO_UNKNOWN;
    }
    if (data[0] & 0xC0) != 0 {
        return ALPROTO_UNKNOWN;
    }
    if data.len() < 8 {
        return ALPROTO_UNKNOWN;
    }
    let magic = be_u32(data[4], data[5], data[6], data[7]);
    if magic != 0x2112A442 {
        return ALPROTO_UNKNOWN;
    }
    alproto_stun
}

/// A chunk that the parser acts on: neither a gap nor empty.
pub open spec fn carries_data(stream_slice: StreamSlice) -> bool {
    !stream_slice.gap && stream_slice.input_len != 0
}

/// The effect of a chunk in `direction` on the state: a gap or an empty
/// chunk changes nothing; data marks the newest transaction as updated in
/// that direction, after allocating one with the next id when there is
/// none.
pub open spec fn parses(
    pre: StunState,
    post: StunState,
    stream_slice: StreamSlice,
    direction: Direction,
) -> bool {
    if !carries_data(stream_slice) {
        post == pre
    } else if pre.txs().len() == 0 {
        &&& post.last_id() == pre.last_id() + 1
        &&& post.txs() == seq![
            StunTransaction::spec_new(
                post.last_id(),
                AppLayerTxData::spec_for_direction(direction),
            ).updated(direction),
        ]
    } else {
        &&& post.last_id() == pre.last_id()
        &&& post.txs() == pre.txs().update(
            pre.txs().len() - 1,
            pre.txs().last().updated(direction),
        )
    }
}

/// The state can take a chunk without running out of ids.
pub open spec fn can_parse(state: StunState, stream_slice: StreamSlice) -> bool {
    carries_data(stream_slice) && state.txs().len() == 0 ==> state.last_id() < u64::MAX
}

/// Handles a chunk of data in `direction` (see `parses`).
pub fn stun_parse_common(
    state: &mut StunState,
    stream_slice: &StreamSlice,
    direction: Direction,
) -> (r: AppLayerResult)
    requires
        old(state).wf(),
        can_parse(*old(state), *stream_slice),
    ensures
        r == AppLayerResult::spec_ok(),
        final(state).wf(),
        parses(*old(state), *final(state), *stream_slice, direction),
{
    if stream_slice.is_gap() || stream_slice.is_empty() {
        return AppLayerResult::ok();
    }
    let tx = state.ensure_tx(direction);
    tx.tx_data.mark_updated(direction);
    AppLayerResult::ok()
}

/// Handles client-to-server data.
pub fn stun_parse_ts(state: &mut StunState, stream_slice: &StreamSlice) -> (r: AppLayerResult)
    requires
        old(state).wf(),
        can_parse(*old(state), *stream_slice),
    ensures
        r == AppLayerResult::spec_ok(),
        final(state).wf(),
        parses(*old(state), *final(state), *stream_slice, Direction::ToServer),
{
    stun_parse_common(state, stream_slice, Direction::ToServer)
}

/// Handles server-to-client data.
pub fn stun_parse_tc(state: &mut StunState, stream_slice: &StreamSlice) -> (r: AppLayerResult)
    requires
        old(state).wf(),
        can_parse(*old(state), *stream_slice),
    ensures
        r == AppLayerResult::spec_ok(),
        final(state).wf(),
        parses(*old(state), *final(state), *stream_slice, Direction::ToClient),
{
    stun_parse_common(state, stream_slice, Direction::ToClient)
}

/// The registration record of the STUN parser for `ipproto`, tried by
/// default on `default_port`: a probe that needs a whole header and looks
/// at no more than 256 bytes, and transactions complete at progress 1.
pub fn build_parser<'a>(default_port: &'a str, ipproto: u8) -> (r: ParserSettings<'a>)
    ensures
        r.name@ == "stun"@,
        r.default_port@ == default_port@,
        r.ipproto == ipproto,
        r.min_depth == 20,
        r.max_depth == 256,
        r.tx_comp_st_ts == 1,
        r.tx_comp_st_tc == 1,
        r.flags == 0,
{
    ParserSettings {
        name: "stun",
        default_port,
        ipproto,
        min_depth: 20,
        max_depth: 256,
        tx_comp_st_ts: 1,
        tx_comp_st_tc: 1,
        flags: 0,
    }
}

/// The ports STUN is tried on by default.
pub const STUN_DEFAULT_PORTS: &'static str = "[3478, 3479]";

/// Registration of the STUN parser for one IP protocol: the detector when
/// protocol detection is enabled, and then the parser when parsing is
/// enabled as well; no logger.
pub fn register_parser_plan(detection_enabled: bool, parser_enabled: bool) -> (r:
    RegistrationPlan)
    ensures
        r.register_detection == detection_enabled,
        r.register_parser == (detection_enabled && parser_enabled),
        !r.register_logger,
{
    if detection_enabled {
        RegistrationPlan {
            register_detection: true,
            register_parser: parser_enabled,
            register_logger: false,
        }
    } else {
        RegistrationPlan {
            register_detection: false,
            register_parser: false,
            register_logger: false,
        }
    }
}

/// Ids are unique: two live transactions with the same id are the same
/// entry.
pub proof fn lemma_ids_unique(s: StunState, i: int, j: int)
    requires
        s.wf(),
        0 <= i < s.txs().len(),
        0 <= j < s.txs().len(),
        s.txs()[i].spec_id() == s.txs()[j].spec_id(),
    ensures
        i == j,
{
    if i < j {
        assert(s.txs()[i].spec_id() < s.txs()[j].spec_id());
    } else if j < i {
        assert(s.txs()[j].spec_id() < s.txs()[i].spec_id());
    }
}

/// The id handed out next belongs to no live transaction, so ids are
/// never reused.
pub proof fn lemma_next_id_is_fresh(s: StunState)
    requires
        s.wf(),
    ensures
        !has_id(s.txs(), s.last_id() + 1),
{
    assert forall|i: int| 0 <= i < s.txs().len() implies #[trigger] s.txs()[i].spec_id()
        != s.last_id() + 1 by {
        assert(s.txs()[i].spec_id() <= s.last_id());
    }
}

/// Once the transaction that the engine numbers `tx_id` is freed, looking
/// it up finds nothing, and exactly one transaction is gone when there was
/// one to free.
pub proof fn lemma_freed_tx_is_gone(pre: StunState, post: StunState, tx_id: u64)
    requires
        pre.wf(),
        tx_id < u64::MAX,
        frees_tx(pre.txs(), post.txs(), tx_id + 1),
    ensures
        !has_id(post.txs(), tx_id + 1),
        post.txs().len() == if has_id(pre.txs(), tx_id + 1) {
            pre.txs().len() - 1
        } else {
            pre.txs().len() as int
        },
{
    let id = tx_id + 1;
    if has_id(pre.txs(), id) {
        let i = choose|i: int| is_first_with_id(pre.txs(), id, i) && post.txs() == pre.txs().remove(i);
        assert forall|k: int| 0 <= k < post.txs().len() implies #[trigger] post.txs()[k].spec_id()
            != id by {
            let src = if k < i {
                k
            } else {
                k + 1
            };
            assert(post.txs()[k] == pre.txs()[src]);
            if pre.txs()[src].spec_id() == id {
                lemma_ids_unique(pre, src, i);
            }
        }
    }
}

/// A transaction appended with the next id is the one that the engine
/// finds under the number of ids handed out before.
pub proof fn lemma_appended_tx_is_found(pre: StunState, post: StunState, tx: StunTransaction)
    requires
        pre.wf(),
        post.last_id() == pre.last_id() + 1,
        tx.spec_id() == post.last_id(),
        post.txs() == pre.txs().push(tx),
    ensures
        post.wf(),
        is_first_with_id(post.txs(), pre.last_id() + 1, pre.txs().len() as int),
{
    assert forall|j: int| 0 <= j < pre.txs().len() implies #[trigger] post.txs()[j].spec_id()
        != pre.last_id() + 1 by {
        assert(post.txs()[j] == pre.txs()[j]);
    }
    assert forall|a: int, b: int| 0 <= a < b < post.txs().len() implies #[trigger] post.txs()[
        a].spec_id() < #[trigger] post.txs()[b].spec_id() by {
        assert(post.txs()[a] == pre.txs()[a]);
        if b < pre.txs().len() {
            assert(post.txs()[b] == pre.txs()[b]);
        }
    }
    assert forall|a: int| 0 <= a < post.txs().len() implies 1 <= #[trigger] post.txs()[
        a].spec_id() <= post.last_id() by {
        if a < pre.txs().len() {
            assert(post.txs()[a] == pre.txs()[a]);
        }
    }
}

/// Data never adds a second transaction: a chunk allocates one only when
/// the state has none.
pub proof fn lemma_parse_tx_count(
    pre: StunState,
    post: StunState,
    stream_slice: StreamSlice,
    direction: Direction,
)
    requires
        parses(pre, post, stream_slice, direction),
    ensures
        post.txs().len() == if carries_data(stream_slice) && pre.txs().len() == 0 {
            1
        } else {
            pre.txs().len() as int
        },
{
}

/// After data in a direction the newest transaction is marked as updated
/// in that direction, and its id is unchanged.
pub proof fn lemma_parse_marks_updated(
    pre: StunState,
    post: StunState,
    stream_slice: StreamSlice,
    direction: Direction,
)
    requires
        carries_data(stream_slice),
        parses(pre, post, stream_slice, direction),
    ensures
        post.txs().len() > 0,
        direction == Direction::ToServer ==> post.txs().last().data().updated_ts,
        direction == Direction::ToClient ==> post.txs().last().data().updated_tc,
        pre.txs().len() > 0 ==> post.txs().last().spec_id() == pre.txs().last().spec_id(),
        pre.txs().len() == 0 ==> post.txs().last().spec_id() == pre.last_id() + 1,
{
}


/// A transaction built from an id and data has that id and that data.
pub broadcast proof fn lemma_spec_new_fields(id: u64, data: AppLayerTxData)
    ensures
        #[trigger] StunTransaction::spec_new(id, data).spec_id() == id,
        StunTransaction::spec_new(id, data).data() == data,
{
}

/// Marking a transaction as updated keeps its id and updates its data.
pub broadcast proof fn lemma_updated_fields(tx: StunTransaction, direction: Direction)
    ensures
        #[trigger] tx.updated(direction).spec_id() == tx.spec_id(),
        tx.updated(direction).data() == tx.data().with_update(direction),
{
}


/// The probe answers with the STUN protocol id exactly for buffers of at
/// least 20 bytes whose first byte is below 64 and whose bytes 4..8 are
/// 21 12 A4 42, whatever their length beyond that and their other bytes;
/// otherwise, and without a buffer, it answers `ALPROTO_UNKNOWN`.
pub proof fn lemma_probe_answer(s: Seq<u8>, alproto_stun: AppProto)
    ensures
        spec_probe(Some(s), alproto_stun) == if s.len() >= 20 && s[0] < 64 && s[4] == 0x21
            && s[5] == 0x12 && s[6] == 0xA4 && s[7] == 0x42 {
            alproto_stun
        } else {
            ALPROTO_UNKNOWN
        },
        spec_probe(None, alproto_stun) == ALPROTO_UNKNOWN,
{
    if s.len() >= 20 {
        crate::stun::lemma_first_byte_check(s[0]);
        crate::stun::lemma_cookie_bytes(s[4], s[5], s[6], s[7]);
    }
}

/// Trailing data never changes the probe's answer on a buffer it accepts.
pub proof fn lemma_probe_ignores_trailing_data(s: Seq<u8>, t: Seq<u8>, alproto_stun: AppProto)
    requires
        spec_probe_accepts(s),
    ensures
        spec_probe_accepts(s + t),
        spec_probe(Some(s + t), alproto_stun) == spec_probe(Some(s), alproto_stun),
{
    lemma_probe_answer(s, alproto_stun);
    lemma_probe_answer(s + t, alproto_stun);
    assert((s + t)[0] == s[0] && (s + t)[4] == s[4] && (s + t)[5] == s[5] && (s + t)[6] == s[6]
        && (s + t)[7] == s[7]);
    if s.len() >= 20 {
        crate::stun::lemma_first_byte_check(s[0]);
        crate::stun::lemma_cookie_bytes(s[4], s[5], s[6], s[7]);
    }
}

/// The probe looks only at the length and at bytes 0, 4, 5, 6 and 7: two
/// buffers of at least 20 bytes that agree there get the same answer.
pub proof fn lemma_probe_ignores_other_bytes(s: Seq<u8>, u: Seq<u8>, alproto_stun: AppProto)
    requires
        s.len() >= 20,
        u.len() >= 20,
        s[0] == u[0],
        s[4] == u[4],
        s[5] == u[5],
        s[6] == u[6],
        s[7] == u[7],
    ensures
        spec_probe(Some(s), alproto_stun) == spec_probe(Some(u), alproto_stun),
{
    lemma_probe_answer(s, alproto_stun);
    lemma_probe_answer(u, alproto_stun);
}

/// On a flow without transactions, data in `direction` leaves exactly one
/// transaction, with the next id, updated in that direction, whose
/// inspection flags skip only the other direction.
pub proof fn lemma_first_chunk_tx(
    pre: StunState,
    post: StunState,
    stream_slice: StreamSlice,
    direction: Direction,
)
    requires
        carries_data(stream_slice),
        pre.txs().len() == 0,
        parses(pre, post, stream_slice, direction),
    ensures
        post.txs().len() == 1,
        post.txs()[0].spec_id() == pre.last_id() + 1,
        direction == Direction::ToServer ==> {
            &&& post.txs()[0].data().updated_ts
            &&& post.txs()[0].data().detect_flags_ts == 0
            &&& post.txs()[0].data().detect_flags_tc == APP_LAYER_TX_SKIP_INSPECT_FLAG
        },
        direction == Direction::ToClient ==> {
            &&& post.txs()[0].data().updated_tc
            &&& post.txs()[0].data().detect_flags_ts == APP_LAYER_TX_SKIP_INSPECT_FLAG
            &&& post.txs()[0].data().detect_flags_tc == 0
        },
{
}

} // verus!
