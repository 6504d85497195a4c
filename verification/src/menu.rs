//! Paginated menus: one session per displayed menu, moved by reaction events
//! of its owner until a fixed deadline passes or the menu is closed.

use std::collections::HashMap;
use vstd::prelude::*;
use vstd::std_specs::hash::spec_hash_map_iter;
use vstd::std_specs::iter::IteratorSpec;

verus! {

broadcast use {vstd::std_specs::hash::group_hash_axioms, vstd::string::group_string_axioms};

/// How long a menu stays live after it was started, in seconds. The window is
/// fixed at the start and never renewed by activity.
pub const SESSION_WINDOW_SECS: u64 = 300;

/// The two ways a menu can be moved.
#[derive(Clone, Copy, Debug, PartialEq, Eq, Structural)]
pub enum Direction {
    Previous,
    Next,
}

impl Direction {
    /// The direction that a reaction asks for: a left arrow goes back, a
    /// right arrow goes on, and any other reaction asks for nothing.
    pub open spec fn of_emoji(emoji: Seq<char>) -> Option<Direction> {
        if emoji == seq!['\u{2b05}'] {
            Some(Direction::Previous)
        } else if emoji == seq!['\u{27a1}'] {
            Some(Direction::Next)
        } else {
            None
        }
    }

    /// Reads the direction that a reaction asks for.
    pub fn from_emoji(emoji: &str) -> (direction: Option<Direction>)
        ensures
            direction == Direction::of_emoji(emoji@),
    {
        let mut chars = emoji.chars();
        let first = chars.next();
        let second = chars.next();
        match (first, second) {
            (Some(c), None) => {
                assert(emoji@ =~= seq![c]);
                if c == '\u{2b05}' {
                    Some(Direction::Previous)
                } else if c == '\u{27a1}' {
                    Some(Direction::Next)
                } else {
                    None
                }
            },
            _ => {
                assert(emoji@.len() != 1);
                None
            },
        }
    }
}

/// The mathematical model of a [`MenuSession`].
pub struct SessionState {
    pub session_id: u64,
    pub owner_id: u64,
    pub item_count: nat,
    pub position: nat,
    pub created_at: nat,
    pub can_manage_reactions: bool,
}

impl SessionState {
    /// A session always shows one of its items, so it has at least one.
    pub open spec fn wf(self) -> bool {
        self.position < self.item_count
    }

    /// The state in which every session begins: on its first item.
    pub open spec fn started(
        session_id: u64,
        item_count: nat,
        owner_id: u64,
        can_manage_reactions: bool,
        now: nat,
    ) -> SessionState {
        SessionState {
            session_id,
            owner_id,
            item_count,
            position: 0,
            created_at: now,
            can_manage_reactions,
        }
    }

    /// The wall-clock deadline after which the session no longer reacts.
    pub open spec fn expires_at(self) -> nat {
        self.created_at + SESSION_WINDOW_SECS as nat
    }

    /// Whether the deadline has passed at `now`.
    pub open spec fn expired(self, now: nat) -> bool {
        now >= self.expires_at()
    }

    /// Whether an event of `user` at time `now` may move the session.
    pub open spec fn accepts(self, user: u64, now: nat) -> bool {
        user == self.owner_id && !self.expired(now)
    }

    /// The position one step in `direction`, stopping at both ends.
    pub open spec fn stepped(self, direction: Direction) -> nat {
        match direction {
            Direction::Previous => if self.position == 0 {
                self.position
            } else {
                (self.position - 1) as nat
            },
            Direction::Next => if self.position + 1 >= self.item_count {
                self.position
            } else {
                self.position + 1
            },
        }
    }

    /// The session after a navigation event: moved one step if the event is
    /// accepted, untouched otherwise.
    pub open spec fn navigated(self, direction: Direction, user: u64, now: nat) -> SessionState {
        if self.accepts(user, now) {
            SessionState { position: self.stepped(direction), ..self }
        } else {
            self
        }
    }

    /// The page to draw after a navigation event: the new position if the
    /// event moved the session, nothing otherwise.
    pub open spec fn page_after(self, direction: Direction, user: u64, now: nat) -> Option<nat> {
        let next = self.navigated(direction, user, now);
        if next.position != self.position {
            Some(next.position)
        } else {
            None
        }
    }
}

/// One live paginated display, bound to the message that shows it.
#[derive(Clone, Copy, Debug)]
pub struct MenuSession {
    session_id: u64,
    owner_id: u64,
    item_count: usize,
    position: usize,
    created_at: u64,
    can_manage_reactions: bool,
}

impl View for MenuSession {
    type V = SessionState;

    closed spec fn view(&self) -> SessionState {
        SessionState {
            session_id: self.session_id,
            owner_id: self.owner_id,
            item_count: self.item_count as nat,
            position: self.position as nat,
            created_at: self.created_at as nat,
            can_manage_reactions: self.can_manage_reactions,
        }
    }
}

impl MenuSession {
    #[verifier::type_invariant]
    spec fn in_bounds(self) -> bool {
        self.position < self.item_count
    }

    /// Starts a session on its first item. The deadline is fixed here, at
    /// `now + SESSION_WINDOW_SECS`.
    pub fn start(
        session_id: u64,
        item_count: usize,
        owner_id: u64,
        can_manage_reactions: bool,
        now: u64,
    ) -> (session: MenuSession)
        requires
            item_count >= 1,
        ensures
            session@ == SessionState::started(
                session_id,
                item_count as nat,
                owner_id,
                can_manage_reactions,
                now as nat,
            ),
            session@.wf(),
    {
        MenuSession {
            session_id,
            owner_id,
            item_count,
            position: 0,
            created_at: now,
            can_manage_reactions,
        }
    }

    /// Handles one navigation event. Returns the page to draw when the event
    /// moved the session, and nothing when it was ignored: a stranger's
    /// event, one after the deadline, or a step past either end.
    pub fn navigate(&mut self, direction: Direction, acting_user: u64, now: u64) -> (page: Option<
        usize,
    >)
        ensures
            final(self)@ == old(self)@.navigated(direction, acting_user, now as nat),
            final(self)@.wf(),
            match page {
                Some(p) => old(self)@.page_after(direction, acting_user, now as nat) == Some(
                    p as nat,
                ),
                None => old(self)@.page_after(direction, acting_user, now as nat).is_none(),
            },
    {
        proof {
            use_type_invariant(&*self);
        }
        if acting_user != self.owner_id || self.is_expired(now) {
            return None;
        }
        match direction {
            Direction::Previous => {
                if self.position == 0 {
                    None
                } else {
                    self.position = self.position - 1;
                    Some(self.position)
                }
            },
            Direction::Next => {
                if self.position + 1 >= self.item_count {
                    None
                } else {
                    self.position = self.position + 1;
                    Some(self.position)
                }
            },
        }
    }

    /// Whether the deadline has passed at time `now`.
    pub fn is_expired(&self, now: u64) -> (expired: bool)
        ensures
            expired == self@.expired(now as nat),
    {
        now >= self.created_at && now - self.created_at >= SESSION_WINDOW_SECS
    }

    /// The seconds that are left at `now` until the deadline; none once it
    /// has passed.
    pub fn remaining(&self, now: u64) -> (seconds: u64)
        ensures
            self@.expired(now as nat) ==> seconds == 0,
            !self@.expired(now as nat) ==> seconds == if self@.expires_at() - now <= u64::MAX {
                self@.expires_at() - now
            } else {
                u64::MAX as int
            },
    {
        if now >= self.created_at {
            let elapsed = now - self.created_at;
            if elapsed >= SESSION_WINDOW_SECS {
                0
            } else {
                SESSION_WINDOW_SECS - elapsed
            }
        } else {
            let ahead = self.created_at - now;
            if ahead <= u64::MAX - SESSION_WINDOW_SECS {
                ahead + SESSION_WINDOW_SECS
            } else {
                u64::MAX
            }
        }
    }

    /// The id of the message that shows the menu.
    pub fn session_id(&self) -> (id: u64)
        ensures
            id == self@.session_id,
    {
        self.session_id
    }

    /// The user whose events move the menu.
    pub fn owner_id(&self) -> (id: u64)
        ensures
            id == self@.owner_id,
    {
        self.owner_id
    }

    /// The number of pages.
    pub fn item_count(&self) -> (count: usize)
        ensures
            count == self@.item_count,
            count >= 1,
    {
        proof {
            use_type_invariant(self);
        }
        self.item_count
    }

    /// The page that is shown, counted from 0.
    pub fn position(&self) -> (position: usize)
        ensures
            position == self@.position,
            position < self@.item_count,
    {
        proof {
            use_type_invariant(self);
        }
        self.position
    }

    /// The time at which the session was started.
    pub fn created_at(&self) -> (at: u64)
        ensures
            at == self@.created_at,
    {
        self.created_at
    }

    /// The deadline, unless it lies beyond what the clock can read.
    pub fn expires_at(&self) -> (at: Option<u64>)
        ensures
            match at {
                Some(deadline) => deadline == self@.expires_at(),
                None => self@.expires_at() > u64::MAX,
            },
    {
        self.created_at.checked_add(SESSION_WINDOW_SECS)
    }

    /// Whether the bot may remove reactions from the menu's message. If it
    /// may, it takes each reaction away once it is handled and clears them all
    /// when the session is closed; if it may not, taking a reaction back
    /// counts as an event too.
    pub fn can_manage_reactions(&self) -> (can: bool)
        ensures
            can == self@.can_manage_reactions,
    {
        self.can_manage_reactions
    }
}

/// What a table of sessions looks like after a navigation event for
/// `session_id`: only that session can have moved.
pub open spec fn table_navigated(
    table: Map<u64, SessionState>,
    session_id: u64,
    direction: Direction,
    user: u64,
    now: nat,
) -> Map<u64, SessionState> {
    if table.contains_key(session_id) {
        table.insert(session_id, table[session_id].navigated(direction, user, now))
    } else {
        table
    }
}

/// The page that a navigation event for `session_id` asks to draw.
pub open spec fn table_page(
    table: Map<u64, SessionState>,
    session_id: u64,
    direction: Direction,
    user: u64,
    now: nat,
) -> Option<nat> {
    if table.contains_key(session_id) {
        table[session_id].page_after(direction, user, now)
    } else {
        None
    }
}

/// What a table of sessions looks like after a reaction to the message
/// `session_id`: a reaction that asks for a direction navigates, and any
/// other changes nothing.
pub open spec fn table_reacted(
    table: Map<u64, SessionState>,
    session_id: u64,
    emoji: Seq<char>,
    user: u64,
    now: nat,
) -> Map<u64, SessionState> {
    match Direction::of_emoji(emoji) {
        Some(direction) => table_navigated(table, session_id, direction, user, now),
        None => table,
    }
}

/// The page that a reaction to the message `session_id` asks to draw.
pub open spec fn reaction_page(
    table: Map<u64, SessionState>,
    session_id: u64,
    emoji: Seq<char>,
    user: u64,
    now: nat,
) -> Option<nat> {
    match Direction::of_emoji(emoji) {
        Some(direction) => table_page(table, session_id, direction, user, now),
        None => None,
    }
}

/// A table of sessions after `session_id` was closed.
pub open spec fn table_closed(table: Map<u64, SessionState>, session_id: u64) -> Map<
    u64,
    SessionState,
> {
    table.remove(session_id)
}

/// A table of sessions after those whose deadline has passed at `now` were
/// closed.
pub open spec fn table_swept(table: Map<u64, SessionState>, now: nat) -> Map<u64, SessionState> {
    Map::new(|id: u64| table.contains_key(id) && !table[id].expired(now), |id: u64| table[id])
}

/// Every session of a table is well formed and filed under its own id.
pub open spec fn table_wf(table: Map<u64, SessionState>) -> bool {
    forall|id: u64| #[trigger]
        table.contains_key(id) ==> table[id].wf() && table[id].session_id == id
}

/// Whether `session_id` is live in a table at `now`: it was started, it was
/// not closed, and its deadline has not passed.
pub open spec fn table_active(table: Map<u64, SessionState>, session_id: u64, now: nat) -> bool {
    table.contains_key(session_id) && !table[session_id].expired(now)
}

/// A step back from the first item moves nothing and draws nothing.
pub proof fn lemma_previous_at_first(session: SessionState, user: u64, now: nat)
    requires
        session.position == 0,
    ensures
        session.navigated(Direction::Previous, user, now) == session,
        session.page_after(Direction::Previous, user, now).is_none(),
{
}

/// A step on from the last item moves nothing and draws nothing.
pub proof fn lemma_next_at_last(session: SessionState, user: u64, now: nat)
    requires
        session.position == session.item_count - 1,
    ensures
        session.navigated(Direction::Next, user, now) == session,
        session.page_after(Direction::Next, user, now).is_none(),
{
}

/// Once the deadline has passed, no event moves the session or draws a
/// page, whoever sends it and whenever it arrives from then on.
pub proof fn lemma_expired_absorbs(
    session: SessionState,
    direction: Direction,
    user: u64,
    now: nat,
    later: nat,
)
    requires
        session.expired(now),
        now <= later,
    ensures
        session.navigated(direction, user, later) == session,
        session.page_after(direction, user, later).is_none(),
        session.navigated(direction, user, later).expired(later),
{
}

/// Navigation keeps a session well formed and never touches its deadline,
/// its owner or its length.
pub proof fn lemma_navigation_preserves(
    session: SessionState,
    direction: Direction,
    user: u64,
    now: nat,
)
    requires
        session.wf(),
    ensures
        session.navigated(direction, user, now).wf(),
        session.navigated(direction, user, now) == (SessionState {
            position: session.navigated(direction, user, now).position,
            ..session
        }),
        session.page_after(direction, user, now) matches Some(page) ==> page < session.item_count,
{
}

/// Closing a session a second time changes nothing and finds nothing to
/// close.
pub proof fn lemma_close_twice(table: Map<u64, SessionState>, session_id: u64)
    ensures
        table_closed(table_closed(table, session_id), session_id) == table_closed(
            table,
            session_id,
        ),
        table_closed(table, session_id).get(session_id).is_none(),
{
    assert(table.remove(session_id).remove(session_id) =~= table.remove(session_id));
}

/// A closed session absorbs every later event: navigation neither changes
/// the table nor draws a page.
pub proof fn lemma_closed_absorbs(
    table: Map<u64, SessionState>,
    session_id: u64,
    direction: Direction,
    user: u64,
    now: nat,
)
    ensures
        table_navigated(table_closed(table, session_id), session_id, direction, user, now)
            == table_closed(table, session_id),
        table_page(table_closed(table, session_id), session_id, direction, user, now).is_none(),
{
}

/// Events for one session leave every other session as it was, so events
/// for different sessions can be handled in either order.
pub proof fn lemma_sessions_independent(
    table: Map<u64, SessionState>,
    session_id: u64,
    direction: Direction,
    user: u64,
    now: nat,
    other: u64,
    other_direction: Direction,
    other_user: u64,
    other_now: nat,
)
    requires
        other != session_id,
    ensures
        table_navigated(table, session_id, direction, user, now).get(other) == table.get(other),
        table_closed(table, session_id).get(other) == table.get(other),
        table_page(
            table_navigated(table, session_id, direction, user, now),
            other,
            other_direction,
            other_user,
            other_now,
        ) == table_page(table, other, other_direction, other_user, other_now),
        table_navigated(
            table_navigated(table, session_id, direction, user, now),
            other,
            other_direction,
            other_user,
            other_now,
        ) == table_navigated(
            table_navigated(table, other, other_direction, other_user, other_now),
            session_id,
            direction,
            user,
            now,
        ),
{
    assert(table_navigated(
        table_navigated(table, session_id, direction, user, now),
        other,
        other_direction,
        other_user,
        other_now,
    ) =~= table_navigated(
        table_navigated(table, other, other_direction, other_user, other_now),
        session_id,
        direction,
        user,
        now,
    ));
}

/// Whether one of the first `upto` entries of a walk through the table is
/// filed under `id`.
spec fn key_seen(pairs: Seq<(&u64, &MenuSession)>, upto: int, id: u64) -> bool {
    exists|i: int| 0 <= i < upto && *(#[trigger] pairs[i]).0 == id
}

/// Whether one of the first `upto` sessions of a list has the id `id`.
spec fn id_among(sessions: Seq<MenuSession>, upto: int, id: u64) -> bool {
    exists|j: int| 0 <= j < upto && (#[trigger] sessions[j]).session_id == id
}

/// Routes navigation events to the sessions that are live.
pub struct MenuSessionController {
    sessions: HashMap<u64, MenuSession>,
}

impl View for MenuSessionController {
    type V = Map<u64, SessionState>;

    closed spec fn view(&self) -> Map<u64, SessionState> {
        self.sessions@.map_values(|s: MenuSession| s@)
    }
}

impl MenuSessionController {
    #[verifier::type_invariant]
    spec fn filed_by_id(self) -> bool {
        forall|id: u64| #[trigger]
            self.sessions@.contains_key(id) ==> self.sessions@[id].session_id == id
                && self.sessions@[id].in_bounds()
    }

    /// A controller with no live session.
    pub fn new() -> (controller: MenuSessionController)
        ensures
            controller@ == Map::<u64, SessionState>::empty(),
    {
        let controller = MenuSessionController { sessions: HashMap::new() };
        assert(controller@ =~= Map::<u64, SessionState>::empty());
        controller
    }

    /// Starts a session for the menu shown in message `session_id` and files
    /// it, in place of any session that was filed under that id. The session
    /// is on its first item, which the caller draws.
    pub fn start(
        &mut self,
        session_id: u64,
        item_count: usize,
        owner_id: u64,
        can_manage_reactions: bool,
        now: u64,
    ) -> (session: MenuSession)
        requires
            item_count >= 1,
        ensures
            session@ == SessionState::started(
                session_id,
                item_count as nat,
                owner_id,
                can_manage_reactions,
                now as nat,
            ),
            final(self)@ == old(self)@.insert(session_id, session@),
            table_wf(final(self)@),
    {
        proof {
            use_type_invariant(&*self);
        }
        let session = MenuSession::start(
            session_id,
            item_count,
            owner_id,
            can_manage_reactions,
            now,
        );
        let mut sessions = HashMap::new();
        std::mem::swap(&mut sessions, &mut self.sessions);
        sessions.insert(session_id, session);
        self.sessions = sessions;
        assert(self@ =~= old(self)@.insert(session_id, session@));
        session
    }

    /// Handles one navigation event for `session_id`. Returns the page to
    /// draw when the event moved the session. An event for a session that is
    /// not filed, an event of anyone but the owner, an event after the
    /// deadline and a step past either end are ignored: nothing changes and
    /// nothing is returned.
    pub fn on_navigate(
        &mut self,
        session_id: u64,
        direction: Direction,
        acting_user: u64,
        now: u64,
    ) -> (page: Option<usize>)
        ensures
            final(self)@ == table_navigated(
                old(self)@,
                session_id,
                direction,
                acting_user,
                now as nat,
            ),
            match page {
                Some(p) => table_page(old(self)@, session_id, direction, acting_user, now as nat)
                    == Some(p as nat),
                None => table_page(
                    old(self)@,
                    session_id,
                    direction,
                    acting_user,
                    now as nat,
                ).is_none(),
            },
            table_wf(final(self)@),
            !table_active(old(self)@, session_id, now as nat) ==> page.is_none() && final(self)@
                == old(self)@,
            old(self)@.contains_key(session_id) && direction == Direction::Previous && old(
                self,
            )@[session_id].position == 0 ==> page.is_none() && final(self)@ == old(self)@,
            old(self)@.contains_key(session_id) && direction == Direction::Next && old(
                self,
            )@[session_id].position == old(self)@[session_id].item_count - 1 ==> page.is_none()
                && final(self)@ == old(self)@,
    {
        proof {
            use_type_invariant(&*self);
        }
        let found = self.sessions.get(&session_id);
        match found {
            None => None,
            Some(stored) => {
                let mut session = *stored;
                let page = session.navigate(direction, acting_user, now);
                if page.is_some() {
                    let mut sessions = HashMap::new();
                    std::mem::swap(&mut sessions, &mut self.sessions);
                    sessions.insert(session_id, session);
                    self.sessions = sessions;
                }
                assert(self@ =~= table_navigated(
                    old(self)@,
                    session_id,
                    direction,
                    acting_user,
                    now as nat,
                ));
                page
            },
        }
    }

    /// Handles one reaction to the message `session_id`: a reaction that asks
    /// for a direction is a navigation event, and any other is ignored.
    pub fn on_reaction(&mut self, session_id: u64, emoji: &str, acting_user: u64, now: u64) -> (page:
        Option<usize>)
        ensures
            final(self)@ == table_reacted(old(self)@, session_id, emoji@, acting_user, now as nat),
            match page {
                Some(p) => reaction_page(old(self)@, session_id, emoji@, acting_user, now as nat)
                    == Some(p as nat),
                None => reaction_page(
                    old(self)@,
                    session_id,
                    emoji@,
                    acting_user,
                    now as nat,
                ).is_none(),
            },
            table_wf(final(self)@),
    {
        match Direction::from_emoji(emoji) {
            Some(direction) => self.on_navigate(session_id, direction, acting_user, now),
            None => {
                proof {
                    use_type_invariant(&*self);
                }
                None
            },
        }
    }

    /// Closes a session and returns it, so that the caller can clear the
    /// reactions of a menu whose session could manage them. Closing a session
    /// that is not filed, or not any more, does nothing and returns nothing.
    pub fn close(&mut self, session_id: u64) -> (closed: Option<MenuSession>)
        ensures
            final(self)@ == table_closed(old(self)@, session_id),
            match closed {
                Some(session) => old(self)@.get(session_id) == Some(session@),
                None => !old(self)@.contains_key(session_id) && final(self)@ == old(self)@,
            },
            table_wf(final(self)@),
    {
        proof {
            use_type_invariant(&*self);
        }
        let mut sessions = HashMap::new();
        std::mem::swap(&mut sessions, &mut self.sessions);
        let closed = sessions.remove(&session_id);
        self.sessions = sessions;
        assert(self@ =~= table_closed(old(self)@, session_id));
        closed
    }

    /// The session filed under `session_id`, if there is one.
    pub fn session(&self, session_id: u64) -> (found: Option<MenuSession>)
        ensures
            match found {
                Some(session) => self@.get(session_id) == Some(session@),
                None => !self@.contains_key(session_id),
            },
    {
        match self.sessions.get(&session_id) {
            Some(stored) => Some(*stored),
            None => None,
        }
    }

    /// Whether `session_id` is live at `now`.
    pub fn is_active(&self, session_id: u64, now: u64) -> (active: bool)
        ensures
            active == table_active(self@, session_id, now as nat),
    {
        match self.sessions.get(&session_id) {
            Some(stored) => !stored.is_expired(now),
            None => false,
        }
    }

    /// Closes every session whose deadline has passed at `now`, and returns
    /// those sessions.
    pub fn sweep(&mut self, now: u64) -> (closed: Vec<MenuSession>)
        ensures
            final(self)@ == table_swept(old(self)@, now as nat),
            table_wf(final(self)@),
            forall|i: int|
                0 <= i < closed.len() ==> old(self)@.get((#[trigger] closed[i])@.session_id)
                    == Some(closed[i]@) && closed[i]@.expired(now as nat),
            forall|id: u64|
                old(self)@.contains_key(id) && old(self)@[id].expired(now as nat) ==> exists|
                    i: int,
                |
                    0 <= i < closed.len() && (#[trigger] closed[i])@ == old(self)@[id],
            forall|i: int, j: int|
                0 <= i < j < closed.len() ==> (#[trigger] closed[i])@.session_id != (
                #[trigger] closed[j])@.session_id,
    {
        proof {
            use_type_invariant(&*self);
        }
        let mut closed: Vec<MenuSession> = Vec::new();
        let ghost stored = self.sessions@;
        let walk = self.sessions.iter();
        let ghost pairs = walk.remaining();
        proof {
            assert forall|a: int, b: int| 0 <= a < b < pairs.len() implies *pairs[a].0
                != *pairs[b].0 by {
                if *pairs[a].0 == *pairs[b].0 {
                    assert(stored.contains_key(*pairs[a].0));
                    assert(stored.contains_key(*pairs[b].0));
                    assert(stored[*pairs[a].0] == *pairs[a].1);
                    assert(stored[*pairs[b].0] == *pairs[b].1);
                    assert(pairs[a] == pairs[b]);
                }
            }
        }
        for entry in it: walk
            invariant
                stored == self.sessions@,
                forall|id: u64| #[trigger]
                    stored.contains_key(id) ==> stored[id].session_id == id,
                pairs == it.seq(),
                pairs == spec_hash_map_iter(&self.sessions).remaining(),
                forall|a: int, b: int| 0 <= a < b < pairs.len() ==> *pairs[a].0 != *pairs[b].0,
                forall|j: int|
                    0 <= j < closed.len() ==> stored.contains_key(#[trigger] closed[j].session_id)
                        && stored[closed[j].session_id] == closed[j] && closed[j]@.expired(
                        now as nat,
                    ),
                forall|i: int|
                    0 <= i < it.index() && (*pairs[i].1)@.expired(now as nat)
                        ==> #[trigger] closed@.contains(*pairs[i].1),
                forall|j: int|
                    0 <= j < closed.len() ==> key_seen(
                        pairs,
                        it.index(),
                        #[trigger] closed[j].session_id,
                    ),
                forall|a: int, b: int|
                    0 <= a < b < closed.len() ==> closed[a].session_id != closed[b].session_id,
        {
            let ghost at = it.index();
            let ghost before = closed@;
            assert(entry == pairs[at]);
            assert(stored.contains_key(*pairs[at].0) && stored[*pairs[at].0] == *pairs[at].1);
            let session = entry.1;
            if session.is_expired(now) {
                closed.push(*session);
                proof {
                    assert(closed@[before.len() as int] == *pairs[at].1);
                    assert forall|j: int| 0 <= j < before.len() implies before[j].session_id
                        != session.session_id by {
                        assert(key_seen(pairs, at, before[j].session_id));
                    }
                }
            }
            proof {
                assert forall|i: int|
                    0 <= i < at + 1 && (*pairs[i].1)@.expired(now as nat) implies #[trigger] closed@.contains(
                    *pairs[i].1,
                ) by {
                    if i < at {
                        assert(before.contains(*pairs[i].1));
                        let j = choose|j: int| 0 <= j < before.len() && before[j] == *pairs[i].1;
                        assert(closed@[j] == *pairs[i].1);
                    } else {
                        assert(closed@[before.len() as int] == *pairs[i].1);
                    }
                }
                assert forall|j: int| 0 <= j < closed.len() implies key_seen(
                    pairs,
                    at + 1,
                    #[trigger] closed[j].session_id,
                ) by {
                    if j < before.len() {
                        assert(key_seen(pairs, at, before[j].session_id));
                        let i = choose|i: int|
                            0 <= i < at && *(#[trigger] pairs[i]).0 == before[j].session_id;
                        assert(*pairs[i].0 == closed[j].session_id);
                    } else {
                        assert(*pairs[at].0 == closed[j].session_id);
                    }
                }
            }
        }
        proof {
            assert forall|id: u64|
                stored.contains_key(id) && stored[id]@.expired(now as nat) implies exists|i: int|
                0 <= i < closed.len() && #[trigger] closed[i] == stored[id] by {
                assert(pairs.contains((&id, &stored[id])));
                let i = choose|i: int| 0 <= i < pairs.len() && pairs[i] == (&id, &stored[id]);
                assert(closed@.contains(*pairs[i].1));
            }
        }
        let mut sessions = HashMap::new();
        std::mem::swap(&mut sessions, &mut self.sessions);
        let mut index: usize = 0;
        while index < closed.len()
            invariant
                0 <= index <= closed.len(),
                forall|id: u64| #[trigger]
                    sessions@.contains_key(id) <==> stored.contains_key(id) && !id_among(
                        closed@,
                        index as int,
                        id,
                    ),
                forall|id: u64| #[trigger]
                    sessions@.contains_key(id) ==> sessions@[id] == stored[id],
            decreases closed.len() - index,
        {
            let id = closed[index].session_id;
            sessions.remove(&id);
            proof {
                assert forall|other: u64| #[trigger]
                    sessions@.contains_key(other) <==> stored.contains_key(other) && !id_among(
                        closed@,
                        index + 1,
                        other,
                    ) by {
                    if id_among(closed@, index + 1, other) {
                        let j = choose|j: int|
                            0 <= j < index + 1 && (#[trigger] closed@[j]).session_id == other;
                        if j < index {
                            assert(id_among(closed@, index as int, other));
                        }
                    }
                    if id_among(closed@, index as int, other) {
                        let j = choose|j: int|
                            0 <= j < index && (#[trigger] closed@[j]).session_id == other;
                        assert(closed@[j].session_id == other);
                    }
                    if other == id {
                        assert(closed@[index as int].session_id == other);
                    }
                }
            }
            index = index + 1;
        }
        self.sessions = sessions;
        proof {
            assert forall|id: u64|
                stored.contains_key(id) implies (id_among(closed@, closed.len() as int, id)
                <==> stored[id]@.expired(now as nat)) by {
                if id_among(closed@, closed.len() as int, id) {
                    let j = choose|j: int|
                        0 <= j < closed.len() && (#[trigger] closed@[j]).session_id == id;
                    assert(stored[closed[j].session_id] == closed[j]);
                }
                if stored[id]@.expired(now as nat) {
                    let i = choose|i: int| 0 <= i < closed.len() && #[trigger] closed[i] == stored[id];
                    assert(closed@[i].session_id == id);
                }
            }
            assert(self@ =~= table_swept(old(self)@, now as nat));
            assert forall|id: u64|
                old(self)@.contains_key(id) && old(self)@[id].expired(now as nat) implies exists|
                i: int,
            |
                0 <= i < closed.len() && #[trigger] closed[i]@ == old(self)@[id] by {
                let i = choose|i: int| 0 <= i < closed.len() && #[trigger] closed[i] == stored[id];
                assert(closed[i]@ == old(self)@[id]);
            }
        }
        closed
    }
}

} // verus!
