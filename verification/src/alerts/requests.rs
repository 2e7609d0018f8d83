//! The pending-request registry: matches request/response alerts to the
//! requests waiting for them.
//!
//! The registry is the decision core of the session's request plumbing.
//! It holds, per session:
//! - the senders of pending `session_stats` requests, in posting order
//!   (libtorrent answers them first-in first-out);
//! - the senders of pending `add_torrent` requests, keyed by the token the
//!   add was tagged with;
//! - each live torrent's client data and handle, keyed by the same token
//!   for the torrent's whole lifetime.
//!
//! The caller owns the lock and the channels: every transition returns the
//! senders it released, and the caller completes or drops them after
//! releasing the lock.

use vstd::prelude::*;

use std::collections::HashMap;
use std::collections::VecDeque;

use crate::alerts::{dropped_bit, AddTorrentAlert, AlertsDroppedAlert, TorrentRemovedAlert, ALERT_TYPE_ADD_TORRENT, ALERT_TYPE_SESSION_STATS};
use crate::error::{Category, Error, ErrorView};

verus! {

broadcast use vstd::std_specs::hash::group_hash_axioms;

/// The mathematical state of a [`Registry`].
pub ghost struct RegistryView<S, A, D, H> {
    /// Set once the session is torn down; no request is admitted after.
    pub closed: bool,
    /// The last token minted (tokens start at 1).
    pub next_id: u64,
    /// Pending `session_stats` requests, oldest first.
    pub session_stats: Seq<S>,
    /// Pending `add_torrent` requests by token.
    pub add_torrent: Map<u64, A>,
    /// Client data of live (or possibly attaching) torrents by token.
    pub client_data: Map<u64, D>,
    /// Handles of live torrents by token.
    pub handles: Map<u64, H>,
}

/// Text of the error pending requests fail with once the session is closed.
pub open spec fn closed_message() -> Seq<char> {
    "the session was closed before the response alert arrived"@
}

/// Text of the error pending requests fail with when their response may
/// have been dropped by an alert-queue overflow.
pub open spec fn dropped_message() -> Seq<char> {
    "the alert queue overflowed and the response alert was dropped; retry the request (consider raising the alert_queue_size setting)"@
}

/// Text of the error for an add whose alert carries no handle.
pub open spec fn null_handle_message() -> Seq<char> {
    "add_torrent_alert has null handle"@
}

/// Text of the error for a handle whose torrent no longer exists.
pub open spec fn expired_message() -> Seq<char> {
    "the torrent handle is expired"@
}

/// Text of the error for reaching the data of a torrent that is gone.
pub open spec fn removed_message() -> Seq<char> {
    "the torrent was removed"@
}

/// A bindings error carrying `message`.
pub open spec fn binding_error(message: Seq<char>) -> ErrorView {
    ErrorView { value: 0, category: Category::Bindings, message }
}

/// What an `add_torrent` alert resolves its request to: libtorrent's error
/// if it reported one, else the handle, which must be present.
pub open spec fn add_outcome<H>(error: Option<ErrorView>, handle: Option<H>) -> Result<H, ErrorView> {
    match error {
        Some(e) => Err(e),
        None => match handle {
            Some(h) => Ok(h),
            None => Err(binding_error(null_handle_message())),
        },
    }
}

/// The view of an optional error.
pub open spec fn option_error_view(e: Option<Error>) -> Option<ErrorView> {
    match e {
        Some(e) => Some(e@),
        None => None,
    }
}

/// A result with its error taken by its view.
pub open spec fn result_view<H>(r: Result<H, Error>) -> Result<H, ErrorView> {
    match r {
        Ok(h) => Ok(h),
        Err(e) => Err(e@),
    }
}

impl<S, A, D, H> RegistryView<S, A, D, H> {
    /// Every token held for a pending add or for client data was minted by
    /// this registry: it lies in `1..=next_id`.
    pub open spec fn wf(self) -> bool {
        &&& forall|t: u64| #[trigger] self.add_torrent.contains_key(t) ==> 1 <= t <= self.next_id
        &&& forall|t: u64| #[trigger] self.client_data.contains_key(t) ==> 1 <= t <= self.next_id
    }

    /// The token the next add is tagged with.
    pub open spec fn next_token(self) -> u64 {
        (self.next_id + 1) as u64
    }

    /// A `session_stats` request was posted; its sender joins the queue.
    pub open spec fn after_enqueue_stats(self, tx: S) -> Self {
        RegistryView { session_stats: self.session_stats.push(tx), ..self }
    }

    /// An add was admitted: a fresh token is minted and both the pending
    /// sender and the client data are filed under it.
    pub open spec fn after_enqueue_add(self, data: D, tx: A) -> Self {
        let token = self.next_token();
        RegistryView {
            next_id: token,
            add_torrent: self.add_torrent.insert(token, tx),
            client_data: self.client_data.insert(token, data),
            ..self
        }
    }

    /// The add's future was dropped: only its pending sender goes.
    pub open spec fn after_cancel_add(self, token: u64) -> Self {
        RegistryView { add_torrent: self.add_torrent.remove(token), ..self }
    }

    /// The add was refused before reaching libtorrent: its sender and its
    /// client data go.
    pub open spec fn after_abort_add(self, token: u64) -> Self {
        RegistryView {
            add_torrent: self.add_torrent.remove(token),
            client_data: self.client_data.remove(token),
            ..self
        }
    }

    /// A `session_stats` response arrived: the oldest pending request is
    /// answered.
    pub open spec fn after_resolve_stats(self) -> Self {
        if self.session_stats.len() == 0 {
            self
        } else {
            RegistryView { session_stats: self.session_stats.drop_first(), ..self }
        }
    }

    /// An `add_torrent` response arrived for `token`. When the torrent
    /// attached under that token (`survived`) its handle `h` is filed;
    /// otherwise the token's client data can never be reached again and is
    /// reclaimed. The pending sender is answered either way.
    pub open spec fn after_resolve_add(self, token: u64, survived: bool, h: H) -> Self {
        RegistryView {
            add_torrent: self.add_torrent.remove(token),
            client_data: if survived {
                self.client_data
            } else {
                self.client_data.remove(token)
            },
            handles: if survived {
                self.handles.insert(token, h)
            } else {
                self.handles
            },
            ..self
        }
    }

    /// The torrent tagged `token` was removed: its data and handle go
    /// (token 0 tags nothing).
    pub open spec fn after_removed(self, token: u64) -> Self {
        if token == 0 {
            self
        } else {
            RegistryView {
                client_data: self.client_data.remove(token),
                handles: self.handles.remove(token),
                ..self
            }
        }
    }

    /// Alerts were dropped: every pending request of a dropped response
    /// type fails.
    pub open spec fn after_dropped(self, stats: bool, adds: bool) -> Self {
        RegistryView {
            session_stats: if stats {
                Seq::empty()
            } else {
                self.session_stats
            },
            add_torrent: if adds {
                Map::empty()
            } else {
                self.add_torrent
            },
            ..self
        }
    }

    /// The session is torn down: no request is admitted any more and every
    /// pending one fails; torrents keep their data and handles.
    pub open spec fn after_close(self) -> Self {
        RegistryView {
            closed: true,
            session_stats: Seq::empty(),
            add_torrent: Map::empty(),
            ..self
        }
    }
}

/// Tokens are fresh: the token an admitted add is tagged with is never 0,
/// is held by no pending add and no client data, and the following add is
/// tagged with a different one.
pub proof fn lemma_tokens_fresh<S, A, D, H>(v: RegistryView<S, A, D, H>, data: D, tx: A)
    requires
        v.wf(),
        v.next_id < u64::MAX,
    ensures
        v.next_token() != 0,
        !v.add_torrent.contains_key(v.next_token()),
        !v.client_data.contains_key(v.next_token()),
        v.after_enqueue_add(data, tx).wf(),
        v.after_enqueue_add(data, tx).next_id == v.next_token(),
        v.after_enqueue_add(data, tx).next_id < u64::MAX ==> v.after_enqueue_add(
            data,
            tx,
        ).next_token() != v.next_token(),
{
}

/// `session_stats` requests are answered in posting order: filing a new
/// request behind a non-empty queue does not change which request the
/// next response answers, and answering commutes with filing behind.
pub proof fn lemma_stats_answered_in_posting_order<S, A, D, H>(v: RegistryView<S, A, D, H>, tx: S)
    ensures
        v.session_stats.len() > 0 ==> v.after_enqueue_stats(tx).session_stats[0]
            == v.session_stats[0],
        v.session_stats.len() == 0 ==> v.after_enqueue_stats(tx).session_stats[0] == tx,
        v.session_stats.len() > 0 ==> v.after_enqueue_stats(tx).after_resolve_stats()
            == v.after_resolve_stats().after_enqueue_stats(tx),
        v.session_stats.len() == 0 ==> v.after_enqueue_stats(tx).after_resolve_stats() == v,
{
    if v.session_stats.len() > 0 {
        assert(v.session_stats.push(tx).drop_first() =~= v.session_stats.drop_first().push(tx));
    } else {
        assert(v.session_stats.push(tx).drop_first() =~= v.session_stats);
    }
}

/// Rolling back a refused add undoes its admission: only the minted token
/// stays consumed.
pub proof fn lemma_abort_undoes_enqueue<S, A, D, H>(v: RegistryView<S, A, D, H>, data: D, tx: A)
    requires
        v.wf(),
        v.next_id < u64::MAX,
    ensures
        v.after_enqueue_add(data, tx).after_abort_add(v.next_token()) == (RegistryView {
            next_id: v.next_token(),
            ..v
        }),
{
    let w = v.after_enqueue_add(data, tx).after_abort_add(v.next_token());
    assert(w.add_torrent =~= v.add_torrent);
    assert(w.client_data =~= v.client_data);
}

/// Dropping an add's future releases only its pending sender: the
/// torrent's client data and handle stay reachable, since the torrent may
/// still attach.
pub proof fn lemma_cancel_keeps_torrent_state<S, A, D, H>(v: RegistryView<S, A, D, H>, token: u64)
    ensures
        !v.after_cancel_add(token).add_torrent.contains_key(token),
        v.after_cancel_add(token).client_data == v.client_data,
        v.after_cancel_add(token).handles == v.handles,
        v.after_cancel_add(token).session_stats == v.session_stats,
{
}

/// An add's client data lives exactly as long as its torrent: it is kept
/// (and the handle filed) when the torrent attached under the add's token,
/// reclaimed when it did not, and reclaimed with the handle when the
/// torrent is removed. Either way the pending sender is gone.
pub proof fn lemma_client_data_lifecycle<S, A, D, H>(
    v: RegistryView<S, A, D, H>,
    token: u64,
    h: H,
)
    ensures
        !v.after_resolve_add(token, true, h).add_torrent.contains_key(token),
        !v.after_resolve_add(token, false, h).add_torrent.contains_key(token),
        v.after_resolve_add(token, true, h).client_data == v.client_data,
        v.after_resolve_add(token, true, h).handles.contains_key(token),
        v.after_resolve_add(token, true, h).handles[token] == h,
        !v.after_resolve_add(token, false, h).client_data.contains_key(token),
        v.after_resolve_add(token, false, h).handles == v.handles,
        token != 0 ==> !v.after_removed(token).client_data.contains_key(token),
        token != 0 ==> !v.after_removed(token).handles.contains_key(token),
{
}

/// A torrent added, attached and later removed leaves the registry's
/// requests and client data as they were before the add.
pub proof fn lemma_add_attach_remove_round_trip<S, A, D, H>(
    v: RegistryView<S, A, D, H>,
    data: D,
    tx: A,
    h: H,
)
    requires
        v.wf(),
        v.next_id < u64::MAX,
    ensures
        ({
            let t = v.next_token();
            let w = v.after_enqueue_add(data, tx).after_resolve_add(t, true, h).after_removed(t);
            &&& w.add_torrent == v.add_torrent
            &&& w.client_data == v.client_data
            &&& w.handles == v.handles.remove(t)
            &&& w.session_stats == v.session_stats
        }),
{
    let t = v.next_token();
    let w = v.after_enqueue_add(data, tx).after_resolve_add(t, true, h).after_removed(t);
    assert(w.add_torrent =~= v.add_torrent);
    assert(w.client_data =~= v.client_data);
    assert(w.handles =~= v.handles.remove(t));
}

/// Teardown fails every pending request but keeps every torrent's data
/// and handle; closing twice is closing once.
pub proof fn lemma_close_keeps_torrents<S, A, D, H>(v: RegistryView<S, A, D, H>)
    ensures
        v.after_close().closed,
        v.after_close().session_stats.len() == 0,
        v.after_close().add_torrent.dom().is_empty(),
        v.after_close().client_data == v.client_data,
        v.after_close().handles == v.handles,
        v.after_close().after_close() == v.after_close(),
{
    assert(v.after_close().add_torrent.dom() =~= Set::<u64>::empty());
}

/// The senders an alerts-dropped event released: each must be failed with
/// the dropped-response error.
pub struct Released<S, A> {
    pub session_stats: VecDeque<S>,
    pub add_torrent: HashMap<u64, A>,
}

/// How an `add_torrent` alert was resolved.
pub struct AddResolution<A, D, H> {
    /// The pending request's sender, if its future is still waiting.
    pub sender: Option<A>,
    /// What the request resolves to.
    pub result: Result<H, Error>,
    /// Client data that can never be reached again (the add failed, or
    /// resolved to a torrent that was already attached under another
    /// token); drop it outside the lock.
    pub stale_data: Option<D>,
}

/// The pending-request registry of one session.
pub struct Registry<S, A, D, H> {
    closed: bool,
    next_id: u64,
    session_stats: VecDeque<S>,
    add_torrent: HashMap<u64, A>,
    client_data: HashMap<u64, D>,
    handles: HashMap<u64, H>,
}

impl<S, A, D, H> View for Registry<S, A, D, H> {
    type V = RegistryView<S, A, D, H>;

    closed spec fn view(&self) -> RegistryView<S, A, D, H> {
        RegistryView {
            closed: self.closed,
            next_id: self.next_id,
            session_stats: self.session_stats@,
            add_torrent: self.add_torrent@,
            client_data: self.client_data@,
            handles: self.handles@,
        }
    }
}

/// The error every pending request resolves to when it can no longer be
/// fulfilled because the session closed.
pub fn closed_error() -> (r: Error)
    ensures
        r@ == binding_error(closed_message()),
{
    Error::binding("the session was closed before the response alert arrived")
}

/// The error for pending requests when an overflow may have dropped their
/// response.
pub fn dropped_error() -> (r: Error)
    ensures
        r@ == binding_error(dropped_message()),
{
    Error::binding(
        "the alert queue overflowed and the response alert was dropped; retry the request (consider raising the alert_queue_size setting)",
    )
}

impl<S, A, D, H: Copy> Registry<S, A, D, H> {
    /// A fresh registry: open, no token minted, nothing pending.
    pub fn new() -> (r: Registry<S, A, D, H>)
        ensures
            r@.wf(),
            !r@.closed,
            r@.next_id == 0,
            r@.session_stats == Seq::<S>::empty(),
            r@.add_torrent == Map::<u64, A>::empty(),
            r@.client_data == Map::<u64, D>::empty(),
            r@.handles == Map::<u64, H>::empty(),
    {
        Registry {
            closed: false,
            next_id: 0,
            session_stats: VecDeque::new(),
            add_torrent: HashMap::new(),
            client_data: HashMap::new(),
            handles: HashMap::new(),
        }
    }

    /// Whether the session was closed.
    pub fn is_closed(&self) -> (r: bool)
        ensures
            r == self@.closed,
    {
        self.closed
    }

    /// Whether another add token can be minted (tokens are never reused,
    /// so the supply ends at `u64::MAX`).
    pub fn can_mint_token(&self) -> (r: bool)
        ensures
            r == (self@.next_id < u64::MAX),
    {
        self.next_id < u64::MAX
    }

    /// Admission check for a new request: refused once the session is closed.
    pub fn check_open(&self) -> (r: Result<(), Error>)
        ensures
            !self@.closed ==> r is Ok,
            self@.closed ==> (r matches Err(e) && e@ == binding_error(closed_message())),
    {
        if self.closed {
            Err(closed_error())
        } else {
            Ok(())
        }
    }

    /// Files the response slot of a `session_stats` request that was just
    /// posted (under the same lock as the post, so concurrent requests are
    /// answered in posting order). Refused, with nothing filed, once the
    /// session is closed.
    pub fn enqueue_session_stats(&mut self, tx: S) -> (r: Result<(), Error>)
        ensures
            old(self)@.closed ==> (r matches Err(e) && e@ == binding_error(closed_message())
                && final(self)@ == old(self)@),
            !old(self)@.closed ==> (r is Ok && final(self)@ == old(self)@.after_enqueue_stats(tx)),
            old(self)@.wf() ==> final(self)@.wf(),
    {
        if self.closed {
            return Err(closed_error());
        }
        self.session_stats.push_back(tx);
        Ok(())
    }

    /// Admits an add: mints a fresh token, files the pending sender and the
    /// torrent's client data under it (in the same step, so the data is in
    /// place before libtorrent can attach it), and returns the token.
    /// Refused, with nothing filed, once the session is closed.
    pub fn enqueue_add_torrent(&mut self, data: D, tx: A) -> (r: Result<u64, Error>)
        requires
            old(self)@.next_id < u64::MAX,
        ensures
            old(self)@.closed ==> (r matches Err(e) && e@ == binding_error(closed_message())
                && final(self)@ == old(self)@),
            !old(self)@.closed ==> (r matches Ok(token) && token == old(self)@.next_token()
                && final(self)@ == old(self)@.after_enqueue_add(data, tx)),
            old(self)@.wf() ==> final(self)@.wf(),
    {
        if self.closed {
            return Err(closed_error());
        }
        let token = self.next_id + 1;
        self.next_id = token;
        self.add_torrent.insert(token, tx);
        self.client_data.insert(token, data);
        Ok(token)
    }

    /// Drops the pending sender only (the request's future was dropped):
    /// the post already happened and is not undone, so the torrent may
    /// attach regardless and its client data must stay reachable.
    pub fn cancel_add_torrent(&mut self, token: u64) -> (r: Option<A>)
        ensures
            r == old(self)@.add_torrent.get(token),
            final(self)@ == old(self)@.after_cancel_add(token),
            old(self)@.wf() ==> final(self)@.wf(),
    {
        self.add_torrent.remove(&token)
    }

    /// Rolls back a refused post: the torrent can never attach, so the
    /// client data is reclaimed too. Returns what was removed, to be
    /// dropped outside the lock.
    pub fn abort_add_torrent(&mut self, token: u64) -> (r: (Option<A>, Option<D>))
        ensures
            r.0 == old(self)@.add_torrent.get(token),
            r.1 == old(self)@.client_data.get(token),
            final(self)@ == old(self)@.after_abort_add(token),
            old(self)@.wf() ==> final(self)@.wf(),
    {
        let tx = self.add_torrent.remove(&token);
        let data = self.client_data.remove(&token);
        (tx, data)
    }

    /// The client data of the torrent tagged `token`, if it is still held.
    pub fn client_data(&self, token: u64) -> (r: Option<&D>)
        ensures
            match r {
                Some(d) => self@.client_data.contains_key(token) && *d == self@.client_data[token],
                None => !self@.client_data.contains_key(token),
            },
    {
        self.client_data.get(&token)
    }

    /// The client data of the torrent a handle is tagged with, given the
    /// tag the handle reports (0 for an expired handle, whose torrent no
    /// longer exists): an error for an expired handle, or for a torrent
    /// that was removed from the session.
    pub fn torrent_client_data(&self, reported_token: u64) -> (r: Result<&D, Error>)
        ensures
            reported_token == 0 ==> (r matches Err(e) && e@ == binding_error(
                expired_message(),
            )),
            reported_token != 0 && !self@.client_data.contains_key(reported_token) ==> (r matches Err(
                e,
            ) && e@ == binding_error(removed_message())),
            reported_token != 0 && self@.client_data.contains_key(reported_token) ==> (r matches Ok(
                d,
            ) && *d == self@.client_data[reported_token]),
    {
        if reported_token == 0 {
            return Err(Error::binding("the torrent handle is expired"));
        }
        match self.client_data.get(&reported_token) {
            Some(d) => Ok(d),
            None => Err(Error::binding("the torrent was removed")),
        }
    }

    /// The live handle of the torrent added under `token`, if any.
    pub fn torrent_handle(&self, token: u64) -> (r: Option<H>)
        ensures
            r == self@.handles.get(token),
    {
        match self.handles.get(&token) {
            Some(h) => Some(*h),
            None => None,
        }
    }

    /// Replaces a live torrent's data and returns the previous value (to be
    /// dropped outside the lock). Replace-only: filing data under a token
    /// whose entry was already reclaimed would leak it for the session's
    /// lifetime, so that is refused and nothing changes.
    pub fn set_client_data(&mut self, token: u64, data: D) -> (r: Result<D, Error>)
        ensures
            old(self)@.client_data.contains_key(token) ==> (r matches Ok(prev) && prev
                == old(self)@.client_data[token] && final(self)@ == (RegistryView {
                client_data: old(self)@.client_data.insert(token, data),
                ..old(self)@
            })),
            !old(self)@.client_data.contains_key(token) ==> (r matches Err(e) && e@
                == binding_error(removed_message()) && final(self)@ == old(self)@),
            old(self)@.wf() ==> final(self)@.wf(),
    {
        if self.client_data.contains_key(&token) {
            match self.client_data.insert(token, data) {
                Some(prev) => Ok(prev),
                None => Err(Error::binding("the torrent was removed")),
            }
        } else {
            Err(Error::binding("the torrent was removed"))
        }
    }

    /// A `session_stats` response arrived: releases the oldest pending
    /// request's sender, which the response answers.
    pub fn resolve_session_stats(&mut self) -> (r: Option<S>)
        ensures
            old(self)@.session_stats.len() == 0 ==> r is None,
            old(self)@.session_stats.len() > 0 ==> r == Some(old(self)@.session_stats[0]),
            final(self)@ == old(self)@.after_resolve_stats(),
            old(self)@.wf() ==> final(self)@.wf(),
    {
        let r = self.session_stats.pop_front();
        proof {
            if old(self)@.session_stats.len() > 0 {
                assert(self@.session_stats =~= old(self)@.session_stats.drop_first());
            }
        }
        r
    }

    /// An `add_torrent` alert arrived for the add tagged with the alert's
    /// userdata token, carrying libtorrent's error (if any); `handle` is
    /// the torrent's handle (absent if the alert had none). `handle_token` is the token the handle's
    /// torrent is actually tagged with: a duplicate add resolves to the
    /// torrent that already existed, which keeps its first tag.
    ///
    /// The torrent survives (its handle is filed, its data kept) exactly
    /// when the add succeeded and the handle is tagged `token`; otherwise
    /// the token's client data is released as stale. The pending sender is
    /// released with the outcome, whether or not anyone still waits.
    pub fn resolve_add_torrent(
        &mut self,
        alert: &AddTorrentAlert,
        handle: Option<H>,
        handle_token: u64,
    ) -> (r: AddResolution<A, D, H>)
        ensures
            ({
                let token = alert.userdata;
                let outcome = add_outcome(alert.error.spec_error(), handle);
                let survived = outcome is Ok && handle_token == token;
                &&& r.sender == old(self)@.add_torrent.get(token)
                &&& result_view(r.result) == outcome
                &&& (survived ==> r.stale_data is None)
                &&& (!survived ==> r.stale_data == old(self)@.client_data.get(token))
                &&& final(self)@ == old(self)@.after_resolve_add(
                    token,
                    survived,
                    handle.unwrap(),
                )
            }),
            old(self)@.wf() ==> final(self)@.wf(),
    {
        let token = alert.userdata;
        let result: Result<H, Error> = match alert.error() {
            Some(e) => Err(e),
            None => match handle {
                Some(h) => Ok(h),
                None => Err(Error::binding("add_torrent_alert has null handle")),
            },
        };
        let survived = result.is_ok() && handle_token == token;
        let stale_data = if survived {
            match handle {
                Some(h) => {
                    self.handles.insert(token, h);
                },
                None => {},
            }
            None
        } else {
            self.client_data.remove(&token)
        };
        let sender = self.add_torrent.remove(&token);
        AddResolution { sender, result, stale_data }
    }

    /// The torrent tagged with the alert's userdata token was removed from
    /// the session: releases its client data and handle (to be dropped
    /// outside the lock). Token 0 tags no torrent and is ignored. Best-effort: libtorrent may drop the
    /// alert on extreme overflow, leaking the entries until teardown.
    pub fn resolve_torrent_removed(&mut self, alert: &TorrentRemovedAlert) -> (r: (
        Option<D>,
        Option<H>,
    ))
        ensures
            ({
                let token = alert.userdata;
                &&& token == 0 ==> r.0 is None && r.1 is None
                &&& token != 0 ==> r.0 == old(self)@.client_data.get(token) && r.1 == old(
                    self,
                )@.handles.get(token)
                &&& final(self)@ == old(self)@.after_removed(token)
            }),
            old(self)@.wf() ==> final(self)@.wf(),
    {
        let token = alert.userdata;
        if token == 0 {
            return (None, None);
        }
        let data = self.client_data.remove(&token);
        let handle = self.handles.remove(&token);
        (data, handle)
    }

    /// The alert queue overflowed. Responses are not exempt from dropping,
    /// and a dropped `session_stats` response would misalign the
    /// first-in first-out matching for good, so every pending request of a
    /// dropped response type is released, to fail with [`dropped_error`]:
    /// a spuriously failed request can be retried, a misaligned one is
    /// silent corruption.
    pub fn handle_alerts_dropped(&mut self, alert: &AlertsDroppedAlert) -> (r: Released<S, A>)
        ensures
            ({
                let stats = dropped_bit(alert.dropped@, ALERT_TYPE_SESSION_STATS as int);
                let adds = dropped_bit(alert.dropped@, ALERT_TYPE_ADD_TORRENT as int);
                &&& r.session_stats@ == (if stats {
                    old(self)@.session_stats
                } else {
                    Seq::empty()
                })
                &&& r.add_torrent@ == (if adds {
                    old(self)@.add_torrent
                } else {
                    Map::empty()
                })
                &&& final(self)@ == old(self)@.after_dropped(stats, adds)
            }),
            old(self)@.wf() ==> final(self)@.wf(),
    {
        let mut stats: VecDeque<S> = VecDeque::new();
        let mut adds: HashMap<u64, A> = HashMap::new();
        if alert.dropped(ALERT_TYPE_SESSION_STATS) {
            std::mem::swap(&mut stats, &mut self.session_stats);
        }
        if alert.dropped(ALERT_TYPE_ADD_TORRENT) {
            std::mem::swap(&mut adds, &mut self.add_torrent);
        }
        proof {
            let stats_bit = dropped_bit(alert.dropped@, ALERT_TYPE_SESSION_STATS as int);
            let adds_bit = dropped_bit(alert.dropped@, ALERT_TYPE_ADD_TORRENT as int);
            assert(self@.add_torrent =~= old(self)@.after_dropped(stats_bit, adds_bit).add_torrent);
            assert(self@.session_stats =~= old(self)@.after_dropped(stats_bit, adds_bit).session_stats);
            if old(self)@.wf() {
                assert forall|t: u64| #[trigger] self@.add_torrent.contains_key(t) implies 1 <= t
                    <= self@.next_id by {
                    assert(old(self)@.add_torrent.contains_key(t));
                }
            }
        }
        Released { session_stats: stats, add_torrent: adds }
    }

    /// Session teardown: refuses every later request and releases every
    /// pending one (their senders, dropped, fail the waiting futures).
    /// Client data and handles are deliberately kept: they belong to
    /// torrents, not to pending requests.
    pub fn close(&mut self) -> (r: Released<S, A>)
        ensures
            r.session_stats@ == old(self)@.session_stats,
            r.add_torrent@ == old(self)@.add_torrent,
            final(self)@ == old(self)@.after_close(),
            old(self)@.wf() ==> final(self)@.wf(),
    {
        self.closed = true;
        let mut stats: VecDeque<S> = VecDeque::new();
        let mut adds: HashMap<u64, A> = HashMap::new();
        std::mem::swap(&mut stats, &mut self.session_stats);
        std::mem::swap(&mut adds, &mut self.add_torrent);
        proof {
            assert(self@.add_torrent =~= Map::<u64, A>::empty());
            assert(self@.client_data == old(self)@.client_data);
        }
        Released { session_stats: stats, add_torrent: adds }
    }
}

} // verus!
