use vstd::prelude::*;
use vstd::string::{StrSliceExecFns, StringExecFns};

use crate::rpc::{Auth, RpcClient, RpcError};
use crate::transaction::{consensus_decoded, non_witness_bytes, transaction_id, txid_of};

verus! {

/// A 32-byte hash.
#[derive(Debug, Clone, PartialEq, Eq, Hash)]
pub struct Hash(pub [u8; 32]);

/// The hash of a block.
#[derive(Clone, PartialEq, Eq, Hash)]
pub struct BlockHash(pub Hash);

/// A transaction of the mempool together with its identifier.
#[derive(Clone, Debug)]
pub struct TransacrtionWithHash {
    id: bitcoin::Txid,
    tx: bitcoin::Transaction,
}

impl TransacrtionWithHash {
    /// The transaction.
    pub closed spec fn transaction(self) -> bitcoin::Transaction {
        self.tx
    }

    /// The identifier stored with the transaction.
    pub closed spec fn identifier(self) -> bitcoin::Txid {
        self.id
    }

    /// The transaction together with the identifier that bitcoin computes
    /// for it.
    pub fn from_transaction(tx: bitcoin::Transaction) -> (res: TransacrtionWithHash)
        ensures
            res.transaction() == tx,
            res.identifier() == txid_of(tx),
            forall|raw: Seq<u8>, other: Seq<u8>|
                #![trigger consensus_decoded(raw), consensus_decoded(other)]
                consensus_decoded(raw) == Some(tx) && consensus_decoded(other) is Some
                    && non_witness_bytes(other) == non_witness_bytes(raw) ==> txid_of(
                    consensus_decoded(other)->0,
                ) == res.identifier(),
    {
        let id = transaction_id(&tx);
        TransacrtionWithHash { id, tx }
    }

    /// The identifier of the transaction.
    pub fn id(&self) -> (res: &bitcoin::Txid)
        ensures
            *res == self.identifier(),
    {
        &self.id
    }

    /// The transaction.
    pub fn tx(&self) -> (res: &bitcoin::Transaction)
        ensures
            *res == self.transaction(),
    {
        &self.tx
    }
}

/// The transactions of a sequence of mempool entries.
pub open spec fn transactions_of(entries: Seq<TransacrtionWithHash>) -> Seq<bitcoin::Transaction> {
    entries.map_values(|e: TransacrtionWithHash| e.transaction())
}

/// Each entry carries the identifier of its own transaction.
pub open spec fn entries_identified(entries: Seq<TransacrtionWithHash>) -> bool {
    forall|i: int| 0 <= i < entries.len() ==> #[trigger] entries[i].identifier() == txid_of(entries[i].transaction())
}

/// Whether the text holds `http` somewhere.
pub open spec fn mentions_http(text: Seq<char>) -> bool {
    exists|i: int|
        0 <= i && i + 4 <= text.len() && #[trigger] text[i] == 'h' && text[i + 1] == 't' && text[i + 2] == 't'
            && text[i + 3] == 'p'
}

/// Why the mempool could not be brought up to date.
#[derive(Debug)]
pub enum JdsMempoolError {
    /// No transaction of the node's mempool could be fetched.
    EmptyMempool,
    /// The call to the node that lists its mempool failed.
    RpcError(RpcError),
    /// The configured address is not one the client can reach.
    NoClient,
}

impl From<RpcError> for JdsMempoolError {
    fn from(error: RpcError) -> (res: Self) {
        JdsMempoolError::RpcError(error)
    }
}

impl vstd::std_specs::convert::FromSpecImpl<RpcError> for JdsMempoolError {
    open spec fn obeys_from_spec() -> bool {
        true
    }

    open spec fn from_spec(error: RpcError) -> Self {
        JdsMempoolError::RpcError(error)
    }
}

/// The mempool of a job declaration server, filled from a bitcoin node.
#[derive(Clone, Debug)]
pub struct JDsMempool {
    pub mempool: Vec<TransacrtionWithHash>,
    username: String,
    password: String,
    url: String,
}

impl JDsMempool {
    /// The entries of the mempool, in order.
    pub closed spec fn entries(self) -> Seq<TransacrtionWithHash> {
        self.mempool@
    }

    /// The address of the node.
    pub closed spec fn node_url(self) -> Seq<char> {
        self.url@
    }

    /// The user name and password presented to the node.
    pub closed spec fn credentials(self) -> (Seq<char>, Seq<char>) {
        (self.username@, self.password@)
    }

    /// An empty mempool that will be filled from the node at `url`.
    pub fn new(url: &str, username: String, password: String) -> (res: JDsMempool)
        ensures
            res.entries() == Seq::<TransacrtionWithHash>::empty(),
            res.node_url() == url@,
            res.credentials() == (username@, password@),
    {
        let empty_mempool: Vec<TransacrtionWithHash> = Vec::new();
        JDsMempool { mempool: empty_mempool, username, password, url: String::from_str(url) }
    }

    /// A client of the node, when its address holds `http`; `None` otherwise.
    pub fn get_client(&self) -> (res: Option<RpcClient<'_>>)
        ensures
            res is Some <==> mentions_http(self.node_url()),
            res matches Some(client) ==> client@ == (self.node_url(), self.credentials()),
    {
        let url = self.url.as_str();
        let n = url.unicode_len();
        let mut i: usize = 0;
        while i < n && n - i >= 4
            invariant
                n == url@.len(),
                url@ == self.node_url(),
                forall|j: int|
                    0 <= j < i && j + 4 <= url@.len() ==> !(#[trigger] url@[j] == 'h' && url@[j + 1] == 't'
                        && url@[j + 2] == 't' && url@[j + 3] == 'p'),
            decreases n - i,
        {
            if url.get_char(i) == 'h' && url.get_char(i + 1) == 't' && url.get_char(i + 2) == 't'
                && url.get_char(i + 3) == 'p' {
                let auth = Auth::new(self.username.as_str(), self.password.as_str());
                return Some(RpcClient::new(url, auth));
            }
            i = i + 1;
        }
        None
    }

    /// The first step of an update: a client of the node, or `NoClient`
    /// when the address does not hold `http`.
    pub fn begin_update(&self) -> (res: Result<RpcClient<'_>, JdsMempoolError>)
        ensures
            res is Err <==> !mentions_http(self.node_url()),
            res matches Err(e) ==> e == JdsMempoolError::NoClient,
            res matches Ok(client) ==> client@ == (self.node_url(), self.credentials()),
    {
        match self.get_client() {
            Some(client) => Ok(client),
            None => Err(JdsMempoolError::NoClient),
        }
    }

    /// The last step of an update: the mempool becomes the transactions
    /// that were fetched, in the order of the node's listing; when none
    /// was, the update is refused with `EmptyMempool` and nothing changes.
    pub fn finish_update(&mut self, update: MempoolUpdate) -> (res: Result<(), JdsMempoolError>)
        requires
            update.wf(),
            update.is_finished(),
        ensures
            fetched_transactions(update.outcomes()).len() == 0 ==> res == Err::<(), JdsMempoolError>(
                JdsMempoolError::EmptyMempool,
            ) && *final(self) == *old(self),
            res is Ok ==> final(self).entries().len() > 0,
            res is Ok ==> entries_identified(final(self).entries()),
            res is Err <==> forall|i: int|
                0 <= i < update.outcomes().len() ==> #[trigger] update.outcomes()[i] is None,
            fetched_transactions(update.outcomes()).len() != 0 ==> res is Ok && transactions_of(
                final(self).entries(),
            ) == fetched_transactions(update.outcomes()) && final(self).node_url() == old(
                self,
            ).node_url() && final(self).credentials() == old(self).credentials(),
    {
        proof {
            lemma_nothing_fetched_iff_all_failed(update.outcomes());
        }
        if update.fetched.len() == 0 {
            Err(JdsMempoolError::EmptyMempool)
        } else {
            self.mempool = update.fetched;
            Ok(())
        }
    }
}

/// The transactions that were fetched, in order, from the outcomes of the
/// fetches (`None` for a fetch that failed).
pub open spec fn fetched_transactions(outcomes: Seq<Option<bitcoin::Transaction>>) -> Seq<bitcoin::Transaction> {
    outcomes.filter_map(|o: Option<bitcoin::Transaction>| o)
}

/// The outcome of one fetch: the transaction, or `None` when it failed.
pub open spec fn outcome_of(fetched: Result<bitcoin::Transaction, RpcError>) -> Option<bitcoin::Transaction> {
    match fetched {
        Ok(tx) => Some(tx),
        Err(_) => None,
    }
}

/// An update finds no transaction exactly when every fetch failed.
pub proof fn lemma_nothing_fetched_iff_all_failed(outcomes: Seq<Option<bitcoin::Transaction>>)
    ensures
        fetched_transactions(outcomes).len() == 0 <==> forall|i: int|
            0 <= i < outcomes.len() ==> #[trigger] outcomes[i] is None,
    decreases outcomes.len(),
{
    if outcomes.len() > 0 {
        let rest = outcomes.drop_last();
        lemma_nothing_fetched_iff_all_failed(rest);
        assert forall|i: int| 0 <= i < rest.len() implies rest[i] == outcomes[i] by {}
        if fetched_transactions(outcomes).len() == 0 {
            assert forall|i: int| 0 <= i < outcomes.len() implies #[trigger] outcomes[i] is None by {
                if i < rest.len() {
                    assert(rest[i] == outcomes[i]);
                }
            }
        }
    }
}

/// The fetched transactions of a prefix of the outcomes are a prefix of
/// the fetched transactions of all of them.
proof fn lemma_fetched_prefix(outcomes: Seq<Option<bitcoin::Transaction>>, j: int)
    requires
        0 <= j <= outcomes.len(),
    ensures
        fetched_transactions(outcomes.take(j)).len() <= fetched_transactions(outcomes).len(),
        forall|m: int|
            0 <= m < fetched_transactions(outcomes.take(j)).len() ==> #[trigger] fetched_transactions(
                outcomes.take(j),
            )[m] == fetched_transactions(outcomes)[m],
    decreases outcomes.len() - j,
{
    if j == outcomes.len() {
        assert(outcomes.take(j) =~= outcomes);
    } else {
        lemma_fetched_prefix(outcomes, j + 1);
        outcomes.lemma_filter_map_take_succ(|o: Option<bitcoin::Transaction>| o, j);
        let shorter = fetched_transactions(outcomes.take(j));
        let longer = fetched_transactions(outcomes.take(j + 1));
        assert forall|m: int| 0 <= m < shorter.len() implies #[trigger] shorter[m]
            == fetched_transactions(outcomes)[m] by {
            assert(shorter[m] == longer[m]);
        }
    }
}

/// Each transaction that was fetched is kept, in the order of the listing:
/// the one fetched for the `i`-th identifier comes right after those
/// fetched for the identifiers before it.
pub proof fn lemma_fetched_in_listing_order(outcomes: Seq<Option<bitcoin::Transaction>>, i: int)
    requires
        0 <= i < outcomes.len(),
        outcomes[i] is Some,
    ensures
        fetched_transactions(outcomes.take(i)).len() < fetched_transactions(outcomes).len(),
        fetched_transactions(outcomes)[fetched_transactions(outcomes.take(i)).len() as int]
            == outcomes[i]->0,
{
    outcomes.lemma_filter_map_take_succ(|o: Option<bitcoin::Transaction>| o, i);
    lemma_fetched_prefix(outcomes, i + 1);
    let k = fetched_transactions(outcomes.take(i)).len() as int;
    assert(fetched_transactions(outcomes.take(i + 1))[k] == outcomes[i]->0);
}

/// An update of the mempool under way: the identifiers that the node
/// listed, and the transactions fetched so far, one identifier after the
/// other in the order of the listing.
pub struct MempoolUpdate {
    txids: Vec<String>,
    next: usize,
    fetched: Vec<TransacrtionWithHash>,
    outcomes: Ghost<Seq<Option<bitcoin::Transaction>>>,
}

impl MempoolUpdate {
    /// The identifiers that the node listed.
    pub closed spec fn listed(self) -> Seq<Seq<char>> {
        self.txids@.map_values(|t: String| t@)
    }

    /// The outcome of each fetch made so far, in the order of the listing:
    /// the transaction, or `None` where the fetch failed.
    pub closed spec fn outcomes(self) -> Seq<Option<bitcoin::Transaction>> {
        self.outcomes@
    }

    /// Every listed identifier has been fetched.
    pub open spec fn is_finished(self) -> bool {
        self.outcomes().len() == self.listed().len()
    }

    /// The bookkeeping of the update agrees with its outcomes.
    pub closed spec fn wf(self) -> bool {
        &&& self.next == self.outcomes@.len()
        &&& self.next <= self.txids@.len()
        &&& transactions_of(self.fetched@) == fetched_transactions(self.outcomes@)
        &&& entries_identified(self.fetched@)
    }

    /// The update that follows the node's answer to the listing of its
    /// mempool: the listed identifiers, none fetched yet; when the call
    /// failed, its error.
    pub fn from_listing(listing: Result<Vec<String>, RpcError>) -> (res: Result<MempoolUpdate, JdsMempoolError>)
        ensures
            listing matches Err(e) ==> res == Err::<MempoolUpdate, JdsMempoolError>(JdsMempoolError::RpcError(e)),
            listing matches Ok(ids) ==> (res matches Ok(u) && u.wf() && u.outcomes().len() == 0
                && u.listed() == ids@.map_values(|t: String| t@)),
    {
        match listing {
            Err(e) => Err(JdsMempoolError::from(e)),
            Ok(txids) => {
                let fetched: Vec<TransacrtionWithHash> = Vec::new();
                let update = MempoolUpdate { txids, next: 0, fetched, outcomes: Ghost(Seq::empty()) };
                assert(transactions_of(update.fetched@) =~= fetched_transactions(update.outcomes@));
                Ok(update)
            },
        }
    }

    /// The identifier to fetch next, or `None` when every listed
    /// identifier has been fetched.
    pub fn next_txid(&self) -> (res: Option<&str>)
        requires
            self.wf(),
        ensures
            res is None <==> self.is_finished(),
            res matches Some(t) ==> t@ == self.listed()[self.outcomes().len() as int],
    {
        if self.next < self.txids.len() {
            Some(self.txids[self.next].as_str())
        } else {
            None
        }
    }

    /// Records the outcome of fetching the next identifier: a transaction
    /// that was fetched joins the update, a failed fetch is passed over.
    pub fn record(&mut self, fetched: Result<bitcoin::Transaction, RpcError>)
        requires
            old(self).wf(),
            !old(self).is_finished(),
        ensures
            final(self).wf(),
            final(self).listed() == old(self).listed(),
            final(self).outcomes() == old(self).outcomes().push(outcome_of(fetched)),
    {
        assert(self.listed().len() == self.txids@.len());
        let next = self.next;
        let listed = self.txids.len();
        assert(next < listed);
        let ghost outcome = outcome_of(fetched);
        let ghost before = self.outcomes@;
        let ghost entries_before = self.fetched@;
        match fetched {
            Ok(tx) => {
                let entry = TransacrtionWithHash::from_transaction(tx);
                self.fetched.push(entry);
            },
            Err(_) => {},
        }
        self.next = next + 1;
        self.outcomes = Ghost(before.push(outcome));
        proof {
            assert(self.outcomes@.drop_last() =~= before);
            assert(transactions_of(self.fetched@) =~= fetched_transactions(self.outcomes@)) by {
                if outcome is Some {
                    assert(self.fetched@.drop_last() =~= entries_before);
                    assert(transactions_of(self.fetched@) =~= transactions_of(entries_before).push(
                        outcome->0,
                    ));
                } else {
                    assert(self.fetched@ =~= entries_before);
                }
            }
        }
    }
}

} // verus!
