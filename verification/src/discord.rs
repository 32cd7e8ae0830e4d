//! The presence session: at most one live connection to the Discord client,
//! and the operations that open it, use it and close it.
//!
//! Every operation takes the session by exclusive reference, so no two of
//! them can touch the handle at once. A program that shares one session
//! among threads puts it behind a lock and holds the lock for the whole
//! call.
//!
//! The session keeps, as ghost state, the history of what it has asked of
//! the service: its operations add to the history next to each call that
//! they make, and their contracts are stated over it. That the calls do
//! what their names say is taken on trust; see [`crate::ipc`].

use crate::activity::{ActivityPayload, ActivityState, ActivityView};
use crate::clock::unix_timestamp;
use crate::failure::{
    explain, failure_message, failure_text, is_failure_of, lemma_activity_failure_mentions_activity,
    mentions, result_text, FailureStage,
};
use crate::ipc;
use discord_rich_presence::DiscordIpcClient;
use vstd::prelude::*;

verus! {

/// The application that a session announces itself as.
pub const DEFAULT_CLIENT_ID: &'static str = "1456601764731293911";

/// Cause given when the countdown of an update cannot be written as 64-bit
/// timestamps.
pub const COUNTDOWN_OUT_OF_RANGE: &'static str = "countdown out of range";

/// Cause given when the system clock cannot be read as a timestamp.
pub const CLOCK_OUT_OF_RANGE: &'static str = "system clock out of range";

/// One thing that a session has asked of the presence service.
pub enum Exchange {
    /// An attempt to build a handle for `client_id` and to connect it.
    /// `established` says whether both steps succeeded, so that the session
    /// kept the handle.
    Open { client_id: Seq<char>, established: bool },
    /// The live handle was asked to show `payload`.
    SetActivity { payload: ActivityView },
    /// The live handle was asked to show nothing.
    ClearActivity,
    /// The live handle was closed and given up.
    Close,
}

impl Exchange {
    /// Whether the exchange is addressed to a handle that the session holds.
    pub open spec fn uses_handle(self) -> bool {
        !(self is Open)
    }
}

/// Whether a session that has made the exchanges of `history`, in that
/// order, holds a live handle.
pub open spec fn linked(history: Seq<Exchange>) -> bool
    decreases history.len(),
{
    if history.len() == 0 {
        false
    } else {
        match history.last() {
            Exchange::Open { established, .. } => established,
            Exchange::Close => false,
            _ => linked(history.drop_last()),
        }
    }
}

/// Whether every exchange of `history` that uses a handle was made while the
/// session held a live one: nothing is asked of a handle before it is
/// connected or after it has been closed.
pub open spec fn orderly(history: Seq<Exchange>) -> bool {
    forall|i: int|
        0 <= i < history.len() && (#[trigger] history[i]).uses_handle() ==> linked(
            history.take(i),
        )
}

/// A session as plain values.
pub struct SessionView {
    /// Whether the session holds a live handle.
    pub connected: bool,
    /// The application that the session announces itself as.
    pub client_id: Seq<char>,
    /// Everything that the session has asked of the service, oldest first.
    pub history: Seq<Exchange>,
}

impl SessionView {
    /// The session before anything was asked of the service.
    pub open spec fn fresh(client_id: Seq<char>) -> SessionView {
        SessionView { connected: false, client_id, history: Seq::empty() }
    }

    /// What the flag and the history have to do with each other.
    pub open spec fn well_formed(self) -> bool {
        &&& self.connected == linked(self.history)
        &&& orderly(self.history)
    }

    /// The session after an attempt to connect. The attempt is made from any
    /// state; a handle held before is given up either way.
    pub open spec fn opened(self, established: bool) -> SessionView {
        SessionView {
            connected: established,
            client_id: self.client_id,
            history: self.history.push(
                Exchange::Open { client_id: self.client_id, established },
            ),
        }
    }

    /// The session after a disconnect: the handle, if there is one, is
    /// closed; a session without one is left as it is.
    pub open spec fn closed(self) -> SessionView {
        if self.connected {
            SessionView {
                connected: false,
                client_id: self.client_id,
                history: self.history.push(Exchange::Close),
            }
        } else {
            self
        }
    }

    /// The session after `payload` was handed to the handle, if there is
    /// one. Whether the service took it makes no difference to the session.
    pub open spec fn shown(self, payload: ActivityView) -> SessionView {
        if self.connected {
            SessionView {
                connected: true,
                client_id: self.client_id,
                history: self.history.push(Exchange::SetActivity { payload }),
            }
        } else {
            self
        }
    }

    /// The session after the handle, if there is one, was asked to show
    /// nothing.
    pub open spec fn cleared(self) -> SessionView {
        if self.connected {
            SessionView {
                connected: true,
                client_id: self.client_id,
                history: self.history.push(Exchange::ClearActivity),
            }
        } else {
            self
        }
    }

    /// The session after the report `state` was published at `now`: its
    /// payload is handed over where it can be written, and nothing is
    /// handed over where it cannot.
    pub open spec fn published(self, state: ActivityState<'_>, now: int) -> SessionView {
        if state.representable_at(now) {
            self.shown(state.payload_view_at(now))
        } else {
            self
        }
    }
}

/// What publishing the report `state` at `now` may make of the session
/// `before`: the session `after` and the result `r`.
///
/// The session always ends as [`SessionView::published`] says. A session
/// without a handle succeeds. A connected one fails for certain where the
/// countdown cannot be written, with [`COUNTDOWN_OUT_OF_RANGE`] as the
/// cause; else the service decides, and a failure carries its words.
pub open spec fn publish_outcome(
    before: SessionView,
    state: ActivityState<'_>,
    now: int,
    after: SessionView,
    r: Result<(), Seq<char>>,
) -> bool {
    &&& after == before.published(state, now)
    &&& !before.connected ==> r is Ok
    &&& before.connected && !state.representable_at(now) ==> r == Err::<(), Seq<char>>(
        failure_text(FailureStage::ActivitySet, COUNTDOWN_OUT_OF_RANGE@),
    )
    &&& r is Err ==> is_failure_of(r->Err_0, FailureStage::ActivitySet)
}

/// What an update may make of a connected session `before`, given what the
/// clock read: with a reading it is published at that moment; without one
/// nothing is asked of the service and the update fails with
/// [`CLOCK_OUT_OF_RANGE`] as the cause.
pub open spec fn update_outcome(
    before: SessionView,
    state: ActivityState<'_>,
    reading: Option<int>,
    after: SessionView,
    r: Result<(), Seq<char>>,
) -> bool {
    match reading {
        Some(now) => now >= 0 && publish_outcome(before, state, now, after, r),
        None => after == before && r == Err::<(), Seq<char>>(
            failure_text(FailureStage::ActivitySet, CLOCK_OUT_OF_RANGE@),
        ),
    }
}

/// Hands `payload` to the handle: the state line, the image and its hover
/// text always, the countdown where the payload has one. The exchange is
/// added to `history` whatever the service answers; the answer is returned
/// as it came.
fn hand_over(
    client: &mut DiscordIpcClient,
    payload: &ActivityPayload<'_>,
    history: &mut Ghost<Seq<Exchange>>,
) -> (outcome: Result<(), String>)
    ensures
        final(history)@ == old(history)@.push(Exchange::SetActivity { payload: payload@ }),
{
    let plain = ipc::activity(payload.state, payload.large_image, payload.large_text);
    let shown = match payload.timestamps {
        Some(range) => ipc::with_timestamps(plain, range.start, range.end),
        None => plain,
    };
    let outcome = ipc::set_activity(client, shown);
    *history = Ghost(history@.push(Exchange::SetActivity { payload: payload@ }));
    outcome
}

/// The handle together with the record of what was asked of it. The two
/// change in one step.
struct Link {
    handle: Option<DiscordIpcClient>,
    history: Ghost<Seq<Exchange>>,
}

impl Link {
    spec fn agrees(self) -> bool {
        &&& (self.handle is Some) == linked(self.history@)
        &&& orderly(self.history@)
    }

    fn vacant() -> (link: Link)
        ensures
            link.handle is None,
            link.history@ == Seq::<Exchange>::empty(),
    {
        Link { handle: None, history: Ghost(Seq::empty()) }
    }
}

/// A presence session. It owns at most one handle to the Discord client
/// on this machine: one exactly while it is connected.
pub struct DiscordPresence {
    link: Link,
    client_id: String,
}

impl View for DiscordPresence {
    type V = SessionView;

    closed spec fn view(&self) -> SessionView {
        SessionView {
            connected: self.link.handle is Some,
            client_id: self.client_id@,
            history: self.link.history@,
        }
    }
}

impl DiscordPresence {
    #[verifier::type_invariant]
    spec fn agrees(self) -> bool {
        self.link.agrees()
    }

    /// A session for the player's own application. It starts disconnected
    /// and has asked nothing of the service.
    pub fn new() -> (session: Self)
        ensures
            session@ == SessionView::fresh(DEFAULT_CLIENT_ID@),
            session@.well_formed(),
    {
        DiscordPresence { link: Link::vacant(), client_id: DEFAULT_CLIENT_ID.to_owned() }
    }

    /// Takes the handle and the history out of the session, which is left
    /// without a handle until the caller puts a link back.
    fn unlink(&mut self) -> (taken: Link)
        ensures
            taken.agrees(),
            (taken.handle is Some) == old(self)@.connected,
            taken.history@ == old(self)@.history,
            final(self).client_id == old(self).client_id,
    {
        proof {
            use_type_invariant(&*self);
        }
        let mut taken = Link::vacant();
        core::mem::swap(&mut taken, &mut self.link);
        taken
    }

    /// Builds a new handle for the session's application and connects it.
    /// On success the session holds the new handle. On failure it holds
    /// none, and the error says whether building or connecting failed. A
    /// handle held before the call is given up without being closed:
    /// disconnect first, or use [`DiscordPresence::reconnect`].
    pub fn connect(&mut self) -> (r: Result<(), String>)
        ensures
            final(self)@ == old(self)@.opened(r is Ok),
            final(self)@.well_formed(),
            r matches Err(m) ==> is_failure_of(m@, FailureStage::Construction) || is_failure_of(
                m@,
                FailureStage::Handshake,
            ),
    {
        let taken = self.unlink();
        let ghost before = taken.history@;
        let ghost id = self.client_id@;
        proof {
            lemma_push_keeps_order(before, Exchange::Open { client_id: id, established: true });
            lemma_push_link(before, Exchange::Open { client_id: id, established: true });
            lemma_push_keeps_order(before, Exchange::Open { client_id: id, established: false });
            lemma_push_link(before, Exchange::Open { client_id: id, established: false });
        }
        match explain(FailureStage::Construction, ipc::build_client(self.client_id.as_str())) {
            Err(message) => {
                self.link = Link {
                    handle: None,
                    history: Ghost(
                        before.push(Exchange::Open { client_id: id, established: false }),
                    ),
                };
                Err(message)
            },
            Ok(client) => {
                let mut client = client;
                match explain(FailureStage::Handshake, ipc::handshake(&mut client)) {
                    Err(message) => {
                        self.link = Link {
                            handle: None,
                            history: Ghost(
                                before.push(
                                    Exchange::Open { client_id: id, established: false },
                                ),
                            ),
                        };
                        Err(message)
                    },
                    Ok(()) => {
                        self.link = Link {
                            handle: Some(client),
                            history: Ghost(
                                before.push(Exchange::Open { client_id: id, established: true }),
                            ),
                        };
                        Ok(())
                    },
                }
            },
        }
    }

    /// Whether the session holds a live handle. Asks nothing of the service.
    pub fn is_connected(&self) -> (connected: bool)
        ensures
            connected == self@.connected,
            self@.well_formed(),
    {
        proof {
            use_type_invariant(self);
        }
        self.link.handle.is_some()
    }

    /// Disconnects, then connects again. The two steps are one call here;
    /// a program that shares the session behind a lock may as well take
    /// the lock for each step on its own, and must then expect other
    /// callers to find the session disconnected in between.
    pub fn reconnect(&mut self) -> (r: Result<(), String>)
        ensures
            final(self)@ == old(self)@.closed().opened(r is Ok),
            final(self)@.well_formed(),
            r matches Err(m) ==> is_failure_of(m@, FailureStage::Construction) || is_failure_of(
                m@,
                FailureStage::Handshake,
            ),
    {
        self.disconnect();
        self.connect()
    }

    /// Publishes the report `state` with its countdown anchored at `now`.
    ///
    /// A session without a handle succeeds and asks nothing of the service.
    /// A connected session hands the payload of the report to its handle
    /// and returns what the service made of it. Where the countdown cannot
    /// be written, nothing is handed over and the call fails with
    /// [`COUNTDOWN_OUT_OF_RANGE`]. No outcome changes whether the session
    /// is connected.
    pub fn publish_at(&mut self, state: &ActivityState<'_>, now: i64) -> (r: Result<(), String>)
        ensures
            publish_outcome(old(self)@, *state, now as int, final(self)@, result_text(r)),
            final(self)@.well_formed(),
            r matches Err(m) ==> mentions(m@, "activity"@),
    {
        let taken = self.unlink();
        let ghost before = taken.history@;
        match taken.handle {
            None => {
                self.link = Link { handle: None, history: Ghost(before) };
                Ok(())
            },
            Some(client) => {
                let mut client = client;
                match state.payload_at(now) {
                    None => {
                        self.link = Link { handle: Some(client), history: Ghost(before) };
                        proof {
                            lemma_activity_failure_mentions_activity(
                                FailureStage::ActivitySet,
                                COUNTDOWN_OUT_OF_RANGE@,
                            );
                        }
                        Err(failure_message(FailureStage::ActivitySet, COUNTDOWN_OUT_OF_RANGE))
                    },
                    Some(payload) => {
                        let mut history = taken.history;
                        let outcome = hand_over(&mut client, &payload, &mut history);
                        proof {
                            let asked = Exchange::SetActivity { payload: payload@ };
                            lemma_push_keeps_order(before, asked);
                            lemma_push_link(before, asked);
                        }
                        self.link = Link { handle: Some(client), history };
                        let r = explain(FailureStage::ActivitySet, outcome);
                        proof {
                            if r is Err {
                                lemma_activity_failure_mentions_activity(
                                    FailureStage::ActivitySet,
                                    outcome->Err_0@,
                                );
                            }
                        }
                        r
                    },
                }
            },
        }
    }

    /// Publishes what the player reports, with the countdown anchored at
    /// the current time. The artist is taken and not shown.
    ///
    /// A session without a handle succeeds at once: it neither reads the
    /// clock nor asks anything of the service. A connected session reads
    /// the clock and goes on as [`DiscordPresence::publish_at`] does with
    /// the reading; where the clock cannot be read as a timestamp, nothing
    /// is handed over and the call fails with [`CLOCK_OUT_OF_RANGE`].
    #[allow(unused_variables)]
    pub fn update_presence(
        &mut self,
        song_title: &str,
        artist: &str,
        album: &str,
        duration: i64,
        current_time: i64,
        is_playing: bool,
    ) -> (r: Result<(), String>)
        ensures
            final(self)@.well_formed(),
            !old(self)@.connected ==> r is Ok && final(self)@ == old(self)@,
            old(self)@.connected ==> exists|reading: Option<int>| #[trigger]
                update_outcome(
                    old(self)@,
                    ActivityState {
                        title: song_title,
                        album,
                        duration_seconds: duration,
                        elapsed_seconds: current_time,
                        is_playing,
                    },
                    reading,
                    final(self)@,
                    result_text(r),
                ),
            r matches Err(m) ==> mentions(m@, "activity"@),
    {
        if !self.is_connected() {
            return Ok(());
        }
        let state = ActivityState {
            title: song_title,
            album,
            duration_seconds: duration,
            elapsed_seconds: current_time,
            is_playing,
        };
        let ghost before = self@;
        match unix_timestamp() {
            Some(now) => {
                let r = self.publish_at(&state, now);
                assert(update_outcome(before, state, Some(now as int), self@, result_text(r)));
                r
            },
            None => {
                let r = Err(failure_message(FailureStage::ActivitySet, CLOCK_OUT_OF_RANGE));
                proof {
                    lemma_activity_failure_mentions_activity(
                        FailureStage::ActivitySet,
                        CLOCK_OUT_OF_RANGE@,
                    );
                    assert(update_outcome(before, state, None, self@, result_text(r)));
                }
                r
            },
        }
    }

    /// Asks the service to show nothing. A session without a handle
    /// succeeds and asks nothing. A failure does not change whether the
    /// session is connected.
    pub fn clear_presence(&mut self) -> (r: Result<(), String>)
        ensures
            final(self)@ == old(self)@.cleared(),
            final(self)@.well_formed(),
            !old(self)@.connected ==> r is Ok,
            r matches Err(m) ==> is_failure_of(m@, FailureStage::ActivityClear) && mentions(
                m@,
                "activity"@,
            ),
    {
        let taken = self.unlink();
        let ghost before = taken.history@;
        match taken.handle {
            None => {
                self.link = Link { handle: None, history: Ghost(before) };
                Ok(())
            },
            Some(client) => {
                let mut client = client;
                let outcome = ipc::clear_activity(&mut client);
                proof {
                    lemma_push_keeps_order(before, Exchange::ClearActivity);
                    lemma_push_link(before, Exchange::ClearActivity);
                }
                self.link = Link {
                    handle: Some(client),
                    history: Ghost(before.push(Exchange::ClearActivity)),
                };
                let r = explain(FailureStage::ActivityClear, outcome);
                proof {
                    if r is Err {
                        lemma_activity_failure_mentions_activity(
                            FailureStage::ActivityClear,
                            outcome->Err_0@,
                        );
                    }
                }
                r
            },
        }
    }

    /// Closes the handle, if the session holds one, and gives it up. What
    /// the service answers to the closing is not looked at: nothing could
    /// be done about a failure. A session without a handle is left as it
    /// is.
    pub fn disconnect(&mut self)
        ensures
            final(self)@ == old(self)@.closed(),
            final(self)@.well_formed(),
            !final(self)@.connected,
    {
        let taken = self.unlink();
        let ghost before = taken.history@;
        match taken.handle {
            None => {
                self.link = Link { handle: None, history: Ghost(before) };
            },
            Some(client) => {
                let _ = ipc::close(client);
                proof {
                    lemma_push_keeps_order(before, Exchange::Close);
                    lemma_push_link(before, Exchange::Close);
                }
                self.link = Link { handle: None, history: Ghost(before.push(Exchange::Close)) };
            },
        }
    }
}

/// What one more exchange does to the order of a history.
proof fn lemma_push_keeps_order(history: Seq<Exchange>, next: Exchange)
    requires
        orderly(history),
        next.uses_handle() ==> linked(history),
    ensures
        orderly(history.push(next)),
{
    let longer = history.push(next);
    assert forall|i: int| 0 <= i < longer.len() && (#[trigger] longer[i]).uses_handle() implies linked(
        longer.take(i),
    ) by {
        if i < history.len() {
            assert(longer.take(i) =~= history.take(i));
            assert(longer[i] == history[i]);
        } else {
            assert(longer.take(i) =~= history);
        }
    }
}

/// What one more exchange does to the link.
proof fn lemma_push_link(history: Seq<Exchange>, next: Exchange)
    ensures
        linked(history.push(next)) == match next {
            Exchange::Open { established, .. } => established,
            Exchange::Close => false,
            _ => linked(history),
        },
{
    let longer = history.push(next);
    assert(longer.last() == next);
    assert(longer.drop_last() =~= history);
}

/// A session that has asked nothing of the service is well formed.
pub proof fn lemma_fresh_is_well_formed(client_id: Seq<char>)
    ensures
        SessionView::fresh(client_id).well_formed(),
{
}

/// Every step of a session keeps it well formed: whatever the operations
/// and their outcomes, nothing is ever asked of a handle before it is
/// connected or after it has been closed.
pub proof fn lemma_steps_keep_well_formed(
    session: SessionView,
    established: bool,
    payload: ActivityView,
    state: ActivityState<'_>,
    now: int,
)
    requires
        session.well_formed(),
    ensures
        session.opened(established).well_formed(),
        session.closed().well_formed(),
        session.shown(payload).well_formed(),
        session.cleared().well_formed(),
        session.published(state, now).well_formed(),
{
    let h = session.history;
    let open = Exchange::Open { client_id: session.client_id, established };
    lemma_push_keeps_order(h, open);
    lemma_push_link(h, open);
    if session.connected {
        lemma_push_keeps_order(h, Exchange::Close);
        lemma_push_link(h, Exchange::Close);
        lemma_push_keeps_order(h, Exchange::SetActivity { payload });
        lemma_push_link(h, Exchange::SetActivity { payload });
        lemma_push_keeps_order(h, Exchange::ClearActivity);
        lemma_push_link(h, Exchange::ClearActivity);
        let written = Exchange::SetActivity { payload: state.payload_view_at(now) };
        lemma_push_keeps_order(h, written);
        lemma_push_link(h, written);
    }
}

/// Disconnecting twice is disconnecting once: the second call finds no
/// handle and changes nothing.
pub proof fn lemma_disconnect_is_idempotent(session: SessionView)
    ensures
        !session.closed().connected,
        session.closed().closed() == session.closed(),
{
}

/// A session without a handle asks nothing of the service when it is told
/// to publish or to clear.
pub proof fn lemma_idle_session_stays_silent(
    session: SessionView,
    state: ActivityState<'_>,
    now: int,
)
    requires
        !session.connected,
    ensures
        session.published(state, now) == session,
        session.cleared() == session,
{
}

/// A connect that succeeds leaves the session connected, and a disconnect
/// after it leaves the session disconnected.
pub proof fn lemma_connect_then_disconnect(session: SessionView)
    ensures
        session.opened(true).connected,
        !session.opened(true).closed().connected,
{
}

/// Publishing and clearing never change whether the session is connected,
/// whether or not the service took the request.
pub proof fn lemma_activity_keeps_connection(
    session: SessionView,
    state: ActivityState<'_>,
    now: int,
)
    ensures
        session.published(state, now).connected == session.connected,
        session.cleared().connected == session.connected,
{
}

} // verus!
