//! Permissions to drop files into a directory: each is good for one transfer of one
//! session, once, and for a limited time.
use crate::ids::fresh_id;
use crate::lists::{find_first, lemma_filter_step, lemma_find_first_at, lemma_find_first_none};
use crate::text::views;
use vstd::prelude::*;

verus! {

broadcast use crate::text::lemma_views_push;

/// One permission.
#[derive(Debug, PartialEq, Eq)]
pub struct AuthorizedDrop {
    session_id: u128,
    token: u128,
    transfer_id: u128,
    destination_dir: String,
    expires_at: u64,
}

pub struct AuthorizedDropView {
    pub session_id: u128,
    pub token: u128,
    pub transfer_id: u128,
    pub destination_dir: Seq<char>,
    pub expires_at: u64,
}

impl View for AuthorizedDrop {
    type V = AuthorizedDropView;

    closed spec fn view(&self) -> AuthorizedDropView {
        AuthorizedDropView {
            session_id: self.session_id,
            token: self.token,
            transfer_id: self.transfer_id,
            destination_dir: self.destination_dir@,
            expires_at: self.expires_at,
        }
    }
}

/// Which permissions are taken back.
#[derive(Clone, Copy, Debug, PartialEq, Eq, Structural)]
enum Rule {
    Key { session_id: u128, token: u128 },
    Session(u128),
    ExpiredAt(u64),
}

impl Rule {
    spec fn hits(self, drop: AuthorizedDropView) -> bool {
        match self {
            Rule::Key { session_id, token } => has_key(drop, session_id, token),
            Rule::Session(session_id) => drop.session_id == session_id,
            Rule::ExpiredAt(now) => now > drop.expires_at,
        }
    }

    fn applies(&self, drop: &AuthorizedDrop) -> (r: bool)
        ensures
            r == self.hits(drop@),
    {
        match self {
            Rule::Key { session_id, token } => drop.session_id == *session_id && drop.token
                == *token,
            Rule::Session(session_id) => drop.session_id == *session_id,
            Rule::ExpiredAt(now) => *now > drop.expires_at,
        }
    }
}

/// A permission has a session and a token.
pub open spec fn has_key(drop: AuthorizedDropView, session_id: u128, token: u128) -> bool {
    drop.session_id == session_id && drop.token == token
}

/// The place of the permission with a session and a token.
pub open spec fn key_place(
    drops: Seq<AuthorizedDropView>,
    session_id: u128,
    token: u128,
) -> Option<int> {
    find_first(drops, |d: AuthorizedDropView| has_key(d, session_id, token))
}

/// The permissions without the one with a session and a token.
pub open spec fn without_key(
    drops: Seq<AuthorizedDropView>,
    session_id: u128,
    token: u128,
) -> Seq<AuthorizedDropView> {
    drops.filter(|d: AuthorizedDropView| !has_key(d, session_id, token))
}

/// The permissions of other sessions.
pub open spec fn without_session(drops: Seq<AuthorizedDropView>, session_id: u128) -> Seq<
    AuthorizedDropView,
> {
    drops.filter(|d: AuthorizedDropView| d.session_id != session_id)
}

/// The permissions that have not expired.
pub open spec fn unexpired(drops: Seq<AuthorizedDropView>, now: u64) -> Seq<AuthorizedDropView> {
    drops.filter(|d: AuthorizedDropView| now <= d.expires_at)
}

/// The sessions of the expired permissions, each once.
pub open spec fn expired_sessions(drops: Seq<AuthorizedDropView>, now: u64) -> Seq<u128>
    decreases drops.len(),
{
    if drops.len() == 0 {
        Seq::empty()
    } else {
        let earlier = expired_sessions(drops.drop_last(), now);
        if now > drops.last().expires_at && !earlier.contains(drops.last().session_id) {
            earlier.push(drops.last().session_id)
        } else {
            earlier
        }
    }
}

/// What asking for a permission gives.
pub enum ConsumeView {
    Granted(Seq<char>),
    NotFound,
    TransferMismatch,
    Expired,
}

/// What asking for a permission gives, and the permissions afterwards: one that is
/// granted or has expired is gone, one that is asked for by another transfer stays.
pub open spec fn consumed(
    drops: Seq<AuthorizedDropView>,
    session_id: u128,
    transfer_id: u128,
    token: u128,
    now: u64,
) -> (Seq<AuthorizedDropView>, ConsumeView) {
    match key_place(drops, session_id, token) {
        None => (drops, ConsumeView::NotFound),
        Some(i) => if drops[i].transfer_id != transfer_id {
            (drops, ConsumeView::TransferMismatch)
        } else if now > drops[i].expires_at {
            (without_key(drops, session_id, token), ConsumeView::Expired)
        } else {
            (
                without_key(drops, session_id, token),
                ConsumeView::Granted(drops[i].destination_dir),
            )
        },
    }
}

/// The outcome of asking for a permission.
pub open spec fn consume_view(r: Result<String, String>) -> ConsumeView {
    match r {
        Ok(dir) => ConsumeView::Granted(dir@),
        Err(error) => if error@ == "drop destination authorization not found"@ {
            ConsumeView::NotFound
        } else if error@ == "drop destination transfer id mismatch"@ {
            ConsumeView::TransferMismatch
        } else {
            ConsumeView::Expired
        },
    }
}

/// The permissions of all sessions.
#[derive(Debug, PartialEq, Eq)]
pub struct DropAuthorizationRegistry {
    entries: Vec<AuthorizedDrop>,
}

impl View for DropAuthorizationRegistry {
    type V = Seq<AuthorizedDropView>;

    closed spec fn view(&self) -> Seq<AuthorizedDropView> {
        views(self.entries@)
    }
}

impl Default for DropAuthorizationRegistry {
    fn default() -> (r: Self)
        ensures
            r@ == Seq::<AuthorizedDropView>::empty(),
    {
        let r = DropAuthorizationRegistry { entries: Vec::new() };
        assert(r@ =~= Seq::<AuthorizedDropView>::empty());
        r
    }
}

impl DropAuthorizationRegistry {
    /// Gives a permission under a new random token, which is returned.
    pub fn register(
        &mut self,
        session_id: u128,
        transfer_id: u128,
        destination_dir: String,
        now: u64,
        ttl_millis: u64,
    ) -> (r: u128)
        requires
            now + ttl_millis <= u64::MAX,
        ensures
            final(self)@ == without_key(old(self)@, session_id, r).push(
                AuthorizedDropView {
                    session_id,
                    token: r,
                    transfer_id,
                    destination_dir: destination_dir@,
                    expires_at: (now + ttl_millis) as u64,
                },
            ),
    {
        let token: u128 = fresh_id();
        self.register_token(session_id, token, transfer_id, destination_dir, now, ttl_millis);
        token
    }

    /// Gives a permission under a token.
    pub fn register_token(
        &mut self,
        session_id: u128,
        token: u128,
        transfer_id: u128,
        destination_dir: String,
        now: u64,
        ttl_millis: u64,
    )
        requires
            now + ttl_millis <= u64::MAX,
        ensures
            final(self)@ == without_key(old(self)@, session_id, token).push(
                AuthorizedDropView {
                    session_id,
                    token,
                    transfer_id,
                    destination_dir: destination_dir@,
                    expires_at: (now + ttl_millis) as u64,
                },
            ),
    {
        self.remove_where(Rule::Key { session_id, token });
        proof {
            lemma_same_filter(
                old(self)@,
                |d: AuthorizedDropView| !(Rule::Key { session_id, token }).hits(d),
                |d: AuthorizedDropView| !has_key(d, session_id, token),
            );
        }
        self.entries.push(
            AuthorizedDrop {
                session_id,
                token,
                transfer_id,
                destination_dir,
                expires_at: now + ttl_millis,
            },
        );
    }

    fn remove_where(&mut self, rule: Rule)
        ensures
            final(self)@ == old(self)@.filter(|d: AuthorizedDropView| !rule.hits(d)),
    {
        let ghost p = |d: AuthorizedDropView| !rule.hits(d);
        let ghost start = views(self.entries@);
        let ghost mut seen: int = 0;
        let mut i: usize = 0;
        proof {
            reveal(Seq::filter);
            assert(start.take(0) =~= Seq::<AuthorizedDropView>::empty());
            assert(start =~= start.take(0).filter(p) + start.skip(0));
        }
        while i < self.entries.len()
            invariant
                0 <= seen <= start.len(),
                p == (|d: AuthorizedDropView| !rule.hits(d)),
                i == start.take(seen).filter(p).len(),
                views(self.entries@) == start.take(seen).filter(p) + start.skip(seen),
            decreases start.len() - seen,
        {
            proof {
                lemma_filter_step(start, p, seen);
                assert(views(self.entries@).len() == self.entries@.len());
                assert(views(self.entries@)[i as int] == start.skip(seen)[0]);
                assert(start.skip(seen)[0] == start[seen]);
            }
            if rule.applies(&self.entries[i]) {
                let ghost before = self.entries@;
                let _ = self.entries.remove(i);
                proof {
                    assert(views(self.entries@) =~= views(before).remove(i as int));
                    assert(views(self.entries@) =~= start.take(seen + 1).filter(p) + start.skip(
                        seen + 1,
                    ));
                }
            } else {
                proof {
                    assert(views(self.entries@) =~= start.take(seen + 1).filter(p) + start.skip(
                        seen + 1,
                    ));
                }
                i = i + 1;
            }
            proof {
                seen = seen + 1;
            }
        }
        proof {
            assert(views(self.entries@).len() == self.entries@.len());
            assert(start.skip(seen).len() == 0);
            assert(start.take(seen) =~= start);
            assert(views(self.entries@) =~= start.filter(p));
        }
    }

    fn place_of(&self, session_id: u128, token: u128) -> (r: Option<usize>)
        ensures
            match r {
                Some(i) => i < self.entries@.len() && key_place(self@, session_id, token) == Some(
                    i as int,
                ) && has_key(self@[i as int], session_id, token),
                None => key_place(self@, session_id, token) is None,
            },
    {
        let ghost p = |d: AuthorizedDropView| has_key(d, session_id, token);
        let mut i: usize = 0;
        while i < self.entries.len()
            invariant
                i <= self.entries@.len(),
                p == (|d: AuthorizedDropView| has_key(d, session_id, token)),
                forall|j: int| 0 <= j < i ==> !has_key(#[trigger] self@[j], session_id, token),
            decreases self.entries@.len() - i,
        {
            assert(self@[i as int] == self.entries@[i as int]@);
            if self.entries[i].session_id == session_id && self.entries[i].token == token {
                proof {
                    lemma_find_first_at(self@, p, i as int);
                }
                return Some(i);
            }
            i = i + 1;
        }
        proof {
            lemma_find_first_none(self@, p);
        }
        None
    }

    /// Uses a permission. The directory is returned, or why there is none.
    pub fn consume(&mut self, session_id: u128, transfer_id: u128, token: u128, now: u64) -> (r:
        Result<String, String>)
        ensures
            final(self)@ == consumed(old(self)@, session_id, transfer_id, token, now).0,
            consume_view(r) == consumed(old(self)@, session_id, transfer_id, token, now).1,
            r matches Err(error) ==> (error@ == "drop destination authorization not found"@
                || error@ == "drop destination transfer id mismatch"@ || error@
                == "drop destination authorization expired"@),
    {
        proof {
            reveal_strlit("drop destination authorization not found");
            reveal_strlit("drop destination transfer id mismatch");
            reveal_strlit("drop destination authorization expired");
            assert("drop destination authorization not found"@.len() == 40);
            assert("drop destination transfer id mismatch"@.len() == 37);
            assert("drop destination authorization expired"@.len() == 38);
            lemma_same_filter(
                self@,
                |d: AuthorizedDropView| !(Rule::Key { session_id, token }).hits(d),
                |d: AuthorizedDropView| !has_key(d, session_id, token),
            );
        }
        let place: usize = match self.place_of(session_id, token) {
            Some(i) => i,
            None => {
                return Err("drop destination authorization not found".to_owned());
            },
        };
        assert(self@[place as int] == self.entries@[place as int]@);
        if self.entries[place].transfer_id != transfer_id {
            return Err("drop destination transfer id mismatch".to_owned());
        }
        let expired = now > self.entries[place].expires_at;
        let destination_dir = self.entries[place].destination_dir.clone();
        self.remove_where(Rule::Key { session_id, token });
        if expired {
            Err("drop destination authorization expired".to_owned())
        } else {
            Ok(destination_dir)
        }
    }

    /// Takes all permissions of a session back.
    pub fn revoke_session(&mut self, session_id: u128)
        ensures
            final(self)@ == without_session(old(self)@, session_id),
    {
        self.remove_where(Rule::Session(session_id));
        proof {
            lemma_same_filter(
                old(self)@,
                |d: AuthorizedDropView| !Rule::Session(session_id).hits(d),
                |d: AuthorizedDropView| d.session_id != session_id,
            );
        }
    }

    /// Takes expired permissions back. Their sessions are returned, each once.
    pub fn purge_expired(&mut self, now: u64) -> (r: Vec<u128>)
        ensures
            final(self)@ == unexpired(old(self)@, now),
            r@ == expired_sessions(old(self)@, now),
    {
        let mut sessions: Vec<u128> = Vec::new();
        let mut i: usize = 0;
        assert(self@.take(0) =~= Seq::<AuthorizedDropView>::empty());
        while i < self.entries.len()
            invariant
                i <= self.entries@.len(),
                self@ == old(self)@,
                sessions@ == expired_sessions(self@.take(i as int), now),
            decreases self.entries@.len() - i,
        {
            proof {
                assert(self@.take(i as int + 1).drop_last() =~= self@.take(i as int));
                assert(self@.take(i as int + 1).last() == self.entries@[i as int]@);
            }
            let session_id: u128 = self.entries[i].session_id;
            if now > self.entries[i].expires_at && !lists_id(&sessions, session_id) {
                sessions.push(session_id);
            }
            i = i + 1;
        }
        assert(self@.take(self@.len() as int) =~= self@);
        self.remove_where(Rule::ExpiredAt(now));
        proof {
            lemma_same_filter(
                old(self)@,
                |d: AuthorizedDropView| !Rule::ExpiredAt(now).hits(d),
                |d: AuthorizedDropView| now <= d.expires_at,
            );
        }
        sessions
    }

    pub fn clear(&mut self)
        ensures
            final(self)@ == Seq::<AuthorizedDropView>::empty(),
    {
        self.entries.clear();
        assert(self@ =~= Seq::<AuthorizedDropView>::empty());
    }
}

fn lists_id(ids: &Vec<u128>, id: u128) -> (r: bool)
    ensures
        r == ids@.contains(id),
{
    let mut i: usize = 0;
    while i < ids.len()
        invariant
            i <= ids@.len(),
            forall|j: int| 0 <= j < i ==> ids@[j] != id,
        decreases ids@.len() - i,
    {
        if ids[i] == id {
            return true;
        }
        i = i + 1;
    }
    false
}

proof fn lemma_same_filter(
    s: Seq<AuthorizedDropView>,
    p: spec_fn(AuthorizedDropView) -> bool,
    q: spec_fn(AuthorizedDropView) -> bool,
)
    requires
        forall|d: AuthorizedDropView| #![trigger p(d)] p(d) == q(d),
    ensures
        s.filter(p) == s.filter(q),
    decreases s.len(),
{
    reveal(Seq::filter);
    if s.len() > 0 {
        lemma_same_filter(s.drop_last(), p, q);
    }
}

/// A permission is used at most once: after it was granted it is not found.
pub proof fn law_permission_is_used_once(
    drops: Seq<AuthorizedDropView>,
    session_id: u128,
    transfer_id: u128,
    token: u128,
    now: u64,
    other_transfer: u128,
    later: u64,
)
    requires
        consumed(drops, session_id, transfer_id, token, now).1 is Granted,
    ensures
        consumed(
            consumed(drops, session_id, transfer_id, token, now).0,
            session_id,
            other_transfer,
            token,
            later,
        ).1 is NotFound,
{
    lemma_key_is_gone(drops, session_id, token);
}

proof fn lemma_key_is_gone(drops: Seq<AuthorizedDropView>, session_id: u128, token: u128)
    ensures
        key_place(without_key(drops, session_id, token), session_id, token) is None,
{
    let q = |d: AuthorizedDropView| !has_key(d, session_id, token);
    let p = |d: AuthorizedDropView| has_key(d, session_id, token);
    let rest = without_key(drops, session_id, token);
    assert forall|j: int| 0 <= j < rest.len() implies !p(rest[j]) by {
        drops.lemma_filter_pred(q, j);
    }
    lemma_find_first_none(rest, p);
}

/// A permission that was given is granted to its own session and transfer as long as
/// it lasts, and to no other transfer; being asked for by another one does not use it
/// up.
pub proof fn law_permission_is_bound(
    drops: Seq<AuthorizedDropView>,
    drop: AuthorizedDropView,
    other_transfer: u128,
    now: u64,
)
    requires
        other_transfer != drop.transfer_id,
    ensures
        ({
            let given = without_key(drops, drop.session_id, drop.token).push(drop);
            let refused = consumed(given, drop.session_id, other_transfer, drop.token, now);
            &&& refused.1 is TransferMismatch
            &&& refused.0 == given
            &&& now <= drop.expires_at ==> consumed(
                given,
                drop.session_id,
                drop.transfer_id,
                drop.token,
                now,
            ).1 == ConsumeView::Granted(drop.destination_dir)
            &&& now > drop.expires_at ==> consumed(
                given,
                drop.session_id,
                drop.transfer_id,
                drop.token,
                now,
            ).1 is Expired
        }),
{
    let p = |d: AuthorizedDropView| has_key(d, drop.session_id, drop.token);
    let q = |d: AuthorizedDropView| !has_key(d, drop.session_id, drop.token);
    let rest = without_key(drops, drop.session_id, drop.token);
    let given = rest.push(drop);
    assert forall|j: int| 0 <= j < rest.len() implies !p(given[j]) by {
        drops.lemma_filter_pred(q, j);
    }
    lemma_find_first_at(given, p, rest.len() as int);
}

/// After a session's permissions were taken back, none of its tokens is found.
pub proof fn law_revoked_session_has_no_permission(
    drops: Seq<AuthorizedDropView>,
    session_id: u128,
    transfer_id: u128,
    token: u128,
    now: u64,
)
    ensures
        consumed(without_session(drops, session_id), session_id, transfer_id, token, now).1
            is NotFound,
{
    let q = |d: AuthorizedDropView| d.session_id != session_id;
    let p = |d: AuthorizedDropView| has_key(d, session_id, token);
    let rest = without_session(drops, session_id);
    assert forall|j: int| 0 <= j < rest.len() implies !p(rest[j]) by {
        drops.lemma_filter_pred(q, j);
    }
    lemma_find_first_none(rest, p);
}

/// A purge names each session at most once.
pub proof fn law_purge_names_each_session_once(drops: Seq<AuthorizedDropView>, now: u64)
    ensures
        expired_sessions(drops, now).no_duplicates(),
    decreases drops.len(),
{
    if drops.len() > 0 {
        law_purge_names_each_session_once(drops.drop_last(), now);
    }
}

/// What is granted is what was allowed: the directory of a permission with that session,
/// token and transfer that has not expired. An expired one is taken back when it is asked
/// for, and permissions under other tokens stay.
pub proof fn law_only_given_permissions_are_granted(
    drops: Seq<AuthorizedDropView>,
    session_id: u128,
    transfer_id: u128,
    token: u128,
    now: u64,
)
    ensures
        ({
            let (after, answer) = consumed(drops, session_id, transfer_id, token, now);
            &&& answer matches ConsumeView::Granted(dir) ==> exists|i: int|
                0 <= i < drops.len() && (#[trigger] drops[i]).session_id == session_id
                    && drops[i].token == token && drops[i].transfer_id == transfer_id && now
                    <= drops[i].expires_at && drops[i].destination_dir == dir
            &&& answer is NotFound <==> forall|i: int|
                0 <= i < drops.len() ==> (#[trigger] drops[i]).session_id != session_id
                    || drops[i].token != token
            &&& answer is NotFound || answer is TransferMismatch ==> after == drops
            &&& answer is Granted || answer is Expired ==> forall|i: int|
                0 <= i < after.len() ==> (#[trigger] after[i]).session_id != session_id
                    || after[i].token != token
            &&& forall|d: AuthorizedDropView|
                (d.session_id != session_id || d.token != token) ==> (#[trigger] after.contains(d)
                    <==> drops.contains(d))
        }),
{
    let p = |d: AuthorizedDropView| has_key(d, session_id, token);
    let q = |d: AuthorizedDropView| !has_key(d, session_id, token);
    crate::lists::lemma_find_first(drops, p);
    let rest = without_key(drops, session_id, token);
    assert forall|i: int| 0 <= i < rest.len() implies (#[trigger] rest[i]).session_id != session_id
        || rest[i].token != token by {
        drops.lemma_filter_pred(q, i);
    }
    assert forall|d: AuthorizedDropView|
        (d.session_id != session_id || d.token != token) implies (#[trigger] rest.contains(d)
        <==> drops.contains(d)) by {
        if drops.contains(d) {
            let k = choose|k: int| 0 <= k < drops.len() && drops[k] == d;
            drops.lemma_filter_contains(q, k);
        }
        if rest.contains(d) {
            drops.lemma_filter_contains_rev(q, d);
        }
    }
}

/// A purge takes back exactly the permissions that have expired and names exactly their
/// sessions; taking a session's permissions back leaves those of the others.
pub proof fn law_purges_take_expired_permissions(
    drops: Seq<AuthorizedDropView>,
    now: u64,
    session_id: u128,
    d: AuthorizedDropView,
)
    ensures
        unexpired(drops, now).contains(d) <==> drops.contains(d) && now <= d.expires_at,
        without_session(drops, session_id).contains(d) <==> drops.contains(d) && d.session_id
            != session_id,
        expired_sessions(drops, now).contains(session_id) <==> exists|i: int|
            0 <= i < drops.len() && (#[trigger] drops[i]).session_id == session_id && now
                > drops[i].expires_at,
{
    let q = |e: AuthorizedDropView| now <= e.expires_at;
    let o = |e: AuthorizedDropView| e.session_id != session_id;
    if drops.contains(d) {
        let k = choose|k: int| 0 <= k < drops.len() && drops[k] == d;
        if now <= d.expires_at {
            drops.lemma_filter_contains(q, k);
        }
        if d.session_id != session_id {
            drops.lemma_filter_contains(o, k);
        }
    }
    if unexpired(drops, now).contains(d) {
        let j = choose|j: int| 0 <= j < unexpired(drops, now).len() && unexpired(drops, now)[j]
            == d;
        drops.lemma_filter_pred(q, j);
        drops.lemma_filter_contains_rev(q, d);
    }
    if without_session(drops, session_id).contains(d) {
        let rest = without_session(drops, session_id);
        let j = choose|j: int| 0 <= j < rest.len() && rest[j] == d;
        drops.lemma_filter_pred(o, j);
        drops.lemma_filter_contains_rev(o, d);
    }
    lemma_expired_sessions(drops, now, session_id);
}

proof fn lemma_expired_sessions(drops: Seq<AuthorizedDropView>, now: u64, session_id: u128)
    ensures
        expired_sessions(drops, now).contains(session_id) <==> exists|i: int|
            0 <= i < drops.len() && (#[trigger] drops[i]).session_id == session_id && now
                > drops[i].expires_at,
    decreases drops.len(),
{
    if drops.len() > 0 {
        let shorter = drops.drop_last();
        lemma_expired_sessions(shorter, now, session_id);
        let earlier = expired_sessions(shorter, now);
        let all = expired_sessions(drops, now);
        let last = drops.len() - 1;
        if earlier.contains(session_id) {
            let k = choose|k: int| 0 <= k < earlier.len() && earlier[k] == session_id;
            assert(all[k] == session_id);
            let i = choose|i: int|
                0 <= i < shorter.len() && (#[trigger] shorter[i]).session_id == session_id && now
                    > shorter[i].expires_at;
            assert(drops[i] == shorter[i]);
        } else if all.contains(session_id) {
            assert(drops[last].session_id == session_id && now > drops[last].expires_at);
        }
        if exists|i: int|
            0 <= i < drops.len() && (#[trigger] drops[i]).session_id == session_id && now
                > drops[i].expires_at {
            let i = choose|i: int|
                0 <= i < drops.len() && (#[trigger] drops[i]).session_id == session_id && now
                    > drops[i].expires_at;
            if i < last {
                assert(shorter[i] == drops[i]);
            } else if !earlier.contains(session_id) {
                assert(all[earlier.len() as int] == session_id);
            }
        }
    }
}

/// A refused permission says why: there is none, it is for another transfer, or it expired.
pub proof fn law_refusals_say_why(
    store: &mut DropAuthorizationRegistry,
    session_id: u128,
    transfer_id: u128,
    token: u128,
    now: u64,
    r: Result<String, String>,
)
    requires
        call_ensures(DropAuthorizationRegistry::consume, (store, session_id, transfer_id, token, now), r),
    ensures
        ({
            let answer = consumed(old(store)@, session_id, transfer_id, token, now).1;
            &&& answer is Granted <==> r is Ok
            &&& r matches Ok(dir) ==> answer == ConsumeView::Granted(dir@)
            &&& r matches Err(error) ==> {
                &&& answer is NotFound <==> error@ == "drop destination authorization not found"@
                &&& answer is TransferMismatch <==> error@
                    == "drop destination transfer id mismatch"@
                &&& answer is Expired <==> error@ == "drop destination authorization expired"@
            }
        }),
{
    reveal_strlit("drop destination authorization not found");
    reveal_strlit("drop destination transfer id mismatch");
    reveal_strlit("drop destination authorization expired");
    assert("drop destination authorization not found"@.len() == 40);
    assert("drop destination transfer id mismatch"@.len() == 37);
    assert("drop destination authorization expired"@.len() == 38);
}

} // verus!
