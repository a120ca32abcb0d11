//! The two record stores the core works against: participants keyed by
//! identity, and relayed message threads keyed by the directed
//! (giver, recipient) pair.

use vstd::prelude::*;
use vstd::string::StringExecFns;

use crate::types::Message;
use crate::types::MessageView;
use crate::types::User;
use crate::types::UserRecord;
use crate::types::UserRecordView;
use crate::types::UserView;
use crate::types::spec_state_label;
use crate::types::spec_to_user;
use crate::types::state_label;

verus! {

/// The first row with the given identity, scanning front to back.
pub open spec fn spec_find_user(rows: Seq<UserRecordView>, id: int) -> Option<UserRecordView>
    decreases rows.len(),
{
    if rows.len() == 0 {
        None
    } else if rows[0].id == id {
        Some(rows[0])
    } else {
        spec_find_user(rows.skip(1), id)
    }
}

/// The participant stored under the given identity, if any.
pub open spec fn spec_get_user(rows: Seq<UserRecordView>, id: int) -> Option<UserView> {
    match spec_find_user(rows, id) {
        None => None,
        Some(r) => Some(spec_to_user(r)),
    }
}

/// An existing row updated from a participant: profile fields, assignments
/// and the state label are overwritten; identity, endpoint, nickname and
/// creation time keep their stored values.
pub open spec fn spec_saved_row(row: UserRecordView, u: UserView) -> UserRecordView {
    UserRecordView {
        username: u.username,
        wish_text: u.wish_text,
        city: u.city,
        child: u.child,
        santa: u.santa,
        state: spec_state_label(u.state),
        ..row
    }
}

/// A freshly inserted row: assignments start absent whatever the
/// participant value carries.
pub open spec fn spec_new_row(u: UserView) -> UserRecordView {
    UserRecordView {
        id: u.id,
        chat_id: u.chat_id,
        child: None,
        santa: None,
        nickname: u.nickname,
        username: u.username,
        wish_text: u.wish_text,
        state: spec_state_label(u.state),
        city: u.city,
        create_date: u.create_date,
    }
}

/// Upsert of one participant: the first row with the same identity is
/// updated in place, or a new row is appended when none exists.
pub open spec fn spec_save_user(rows: Seq<UserRecordView>, u: UserView) -> Seq<UserRecordView>
    decreases rows.len(),
{
    if rows.len() == 0 {
        seq![spec_new_row(u)]
    } else if rows[0].id == u.id {
        seq![spec_saved_row(rows[0], u)] + rows.skip(1)
    } else {
        seq![rows[0]] + spec_save_user(rows.skip(1), u)
    }
}

/// Upsert of a list of participants, in order.
pub open spec fn spec_save_users(rows: Seq<UserRecordView>, us: Seq<UserView>) -> Seq<
    UserRecordView,
>
    decreases us.len(),
{
    if us.len() == 0 {
        rows
    } else {
        spec_save_users(spec_save_user(rows, us[0]), us.skip(1))
    }
}

/// Key-addressable persistence of participant records, keyed by identity.
pub struct ParticipantStore {
    rows: Vec<UserRecord>,
}

impl View for ParticipantStore {
    type V = Seq<UserRecordView>;

    closed spec fn view(&self) -> Seq<UserRecordView> {
        self.rows.deep_view()
    }
}

proof fn lemma_find_user_prefix(rows: Seq<UserRecordView>, id: int, i: int)
    requires
        0 <= i <= rows.len(),
        forall|k: int| 0 <= k < i ==> rows[k].id != id,
    ensures
        spec_find_user(rows, id) == spec_find_user(rows.skip(i), id),
    decreases i,
{
    if i > 0 {
        lemma_find_user_prefix(rows.skip(1), id, i - 1);
        assert(rows.skip(1).skip(i - 1) =~= rows.skip(i));
    } else {
        assert(rows.skip(0) =~= rows);
    }
}

proof fn lemma_save_user_update(rows: Seq<UserRecordView>, u: UserView, i: int)
    requires
        0 <= i < rows.len(),
        rows[i].id == u.id,
        forall|k: int| 0 <= k < i ==> rows[k].id != u.id,
    ensures
        spec_save_user(rows, u) == rows.update(i, spec_saved_row(rows[i], u)),
    decreases i,
{
    if i == 0 {
        assert(spec_save_user(rows, u) =~= rows.update(0, spec_saved_row(rows[0], u)));
    } else {
        lemma_save_user_update(rows.skip(1), u, i - 1);
        assert(rows.skip(1)[i - 1] == rows[i]);
        assert(spec_save_user(rows, u) =~= rows.update(i, spec_saved_row(rows[i], u)));
    }
}

proof fn lemma_save_user_insert(rows: Seq<UserRecordView>, u: UserView)
    requires
        forall|k: int| 0 <= k < rows.len() ==> rows[k].id != u.id,
    ensures
        spec_save_user(rows, u) == rows.push(spec_new_row(u)),
    decreases rows.len(),
{
    if rows.len() == 0 {
        assert(spec_save_user(rows, u) =~= rows.push(spec_new_row(u)));
    } else {
        lemma_save_user_insert(rows.skip(1), u);
        assert(spec_save_user(rows, u) =~= rows.push(spec_new_row(u)));
    }
}

impl ParticipantStore {
    /// No two rows share an identity.
    pub open spec fn wf(&self) -> bool {
        forall|i: int, j: int|
            0 <= i < j < self@.len() ==> self@[i].id != self@[j].id
    }

    /// An empty store.
    pub fn new() -> (s: ParticipantStore)
        ensures
            s@ == Seq::<UserRecordView>::empty(),
            s.wf(),
    {
        ParticipantStore { rows: Vec::new() }
    }

    /// Point lookup of the stored row for an identity.
    pub fn find_user(&self, user_id: i64) -> (r: Option<UserRecord>)
        ensures
            r.deep_view() == spec_find_user(self@, user_id as int),
    {
        let n = self.rows.len();
        let mut i: usize = 0;
        while i < n
            invariant
                i <= n,
                n == self@.len(),
                forall|k: int| 0 <= k < i ==> self@[k].id != user_id as int,
            decreases n - i,
        {
            if self.rows[i].id == user_id {
                proof {
                    lemma_find_user_prefix(self@, user_id as int, i as int);
                    assert(self@.skip(i as int)[0] == self@[i as int]);
                }
                return Some(self.rows[i].duplicate());
            }
            i = i + 1;
        }
        proof {
            lemma_find_user_prefix(self@, user_id as int, n as int);
            assert(self@.skip(n as int) =~= Seq::<UserRecordView>::empty());
        }
        None
    }

    /// Point lookup of the participant stored under an identity.
    pub fn get_user(&self, user_id: i64) -> (r: Option<User>)
        ensures
            r.deep_view() == spec_get_user(self@, user_id as int),
    {
        match self.find_user(user_id) {
            None => None,
            Some(row) => Some(User::to_user(row)),
        }
    }

    /// Upsert of one participant.  An existing row keeps its identity,
    /// endpoint, nickname and creation time; a fresh row starts with both
    /// assignments absent, whatever the given value carries.
    pub fn save_user(&mut self, user_dto: User)
        requires
            old(self).wf(),
        ensures
            final(self)@ == spec_save_user(old(self)@, user_dto@),
            final(self).wf(),
    {
        let ghost orig = self@;
        let n = self.rows.len();
        let mut i: usize = 0;
        while i < n
            invariant
                i <= n,
                n == self@.len(),
                self@ == orig,
                orig == old(self)@,
                forall|k: int| 0 <= k < i ==> self@[k].id != user_dto@.id,
                forall|p: int, q: int| 0 <= p < q < orig.len() ==> orig[p].id != orig[q].id,
            decreases n - i,
        {
            if self.rows[i].id == user_dto.id {
                proof {
                    lemma_save_user_update(orig, user_dto@, i as int);
                }
                self.rows[i].username = user_dto.username;
                self.rows[i].wish_text = user_dto.wish_text;
                self.rows[i].city = user_dto.city;
                self.rows[i].child = user_dto.child;
                self.rows[i].santa = user_dto.santa;
                self.rows[i].state = state_label(&user_dto.state);
                proof {
                    assert(self@ =~= orig.update(i as int, spec_saved_row(orig[i as int], user_dto@)));
                    assert forall|p: int, q: int|
                        0 <= p < q < self@.len() implies self@[p].id != self@[q].id by {
                        assert(orig[p].id != orig[q].id);
                    }
                }
                return ;
            }
            i = i + 1;
        }
        proof {
            lemma_save_user_insert(orig, user_dto@);
        }
        let row = UserRecord {
            id: user_dto.id,
            chat_id: user_dto.chat_id,
            child: None,
            santa: None,
            nickname: user_dto.nickname,
            username: user_dto.username,
            wish_text: user_dto.wish_text,
            state: state_label(&user_dto.state),
            city: user_dto.city,
            create_date: user_dto.create_date,
        };
        self.rows.push(row);
        proof {
            assert(self@ =~= orig.push(spec_new_row(user_dto@)));
            assert forall|p: int, q: int|
                0 <= p < q < self@.len() implies self@[p].id != self@[q].id by {
                if q < self@.len() - 1 {
                    assert(orig[p].id != orig[q].id);
                }
            }
        }
    }

    /// Upsert of a list of participants, in order.
    pub fn save_users(&mut self, user_dtos: Vec<User>)
        requires
            old(self).wf(),
        ensures
            final(self)@ == spec_save_users(old(self)@, user_dtos.deep_view()),
            final(self).wf(),
    {
        let ghost orig = self@;
        let ghost all = user_dtos.deep_view();
        let mut rest = user_dtos;
        while rest.len() > 0
            invariant
                self.wf(),
                spec_save_users(self@, rest.deep_view()) == spec_save_users(orig, all),
            decreases rest.len(),
        {
            let ghost pre = rest.deep_view();
            let u = rest.remove(0);
            proof {
                assert(rest.deep_view() =~= pre.skip(1));
            }
            self.save_user(u);
        }
        proof {
            assert(rest.deep_view() =~= Seq::<UserView>::empty());
        }
    }

    /// Every stored participant, in storage order.
    pub fn get_all_users(&self) -> (r: Vec<User>)
        ensures
            r.deep_view() == self@.map_values(|rv: UserRecordView| spec_to_user(rv)),
    {
        let n = self.rows.len();
        let mut out: Vec<User> = Vec::new();
        let mut i: usize = 0;
        while i < n
            invariant
                i <= n,
                n == self@.len(),
                out.deep_view() == self@.take(i as int).map_values(
                    |rv: UserRecordView| spec_to_user(rv),
                ),
            decreases n - i,
        {
            let ghost pre = out.deep_view();
            out.push(User::to_user(self.rows[i].duplicate()));
            proof {
                assert(self@.take(i + 1) =~= self@.take(i as int).push(self@[i as int]));
                assert(out.deep_view() =~= pre.push(spec_to_user(self@[i as int])));
                assert(out.deep_view() =~= self@.take(i + 1).map_values(
                    |rv: UserRecordView| spec_to_user(rv),
                ));
            }
            i = i + 1;
        }
        proof {
            assert(self@.take(n as int) =~= self@);
        }
        out
    }
}

/// The first thread for the directed pair, scanning front to back.
pub open spec fn spec_find_message(
    threads: Seq<MessageView>,
    santa_id: int,
    child_id: int,
) -> Option<MessageView>
    decreases threads.len(),
{
    if threads.len() == 0 {
        None
    } else if threads[0].santa_id == santa_id && threads[0].child_id == child_id {
        Some(threads[0])
    } else {
        spec_find_message(threads.skip(1), santa_id, child_id)
    }
}

/// How many threads the store holds for the directed pair.
pub open spec fn spec_thread_count(
    threads: Seq<MessageView>,
    santa_id: int,
    child_id: int,
) -> nat
    decreases threads.len(),
{
    if threads.len() == 0 {
        0
    } else {
        (if threads[0].santa_id == santa_id && threads[0].child_id == child_id {
            1nat
        } else {
            0nat
        }) + spec_thread_count(threads.skip(1), santa_id, child_id)
    }
}

/// A thread with one more message appended after a newline; the thread's
/// timestamp is refreshed to the appended message's time.
pub open spec fn spec_appended(t: MessageView, m: MessageView) -> MessageView {
    MessageView { message: t.message + seq!['\n'] + m.message, create_date: m.create_date, ..t }
}

/// Append-or-create for one directed message: the first thread with the
/// same pair accumulates the text, or a new thread is appended when none
/// exists.
pub open spec fn spec_save_message(threads: Seq<MessageView>, m: MessageView) -> Seq<MessageView>
    decreases threads.len(),
{
    if threads.len() == 0 {
        seq![m]
    } else if threads[0].santa_id == m.santa_id && threads[0].child_id == m.child_id {
        seq![spec_appended(threads[0], m)] + threads.skip(1)
    } else {
        seq![threads[0]] + spec_save_message(threads.skip(1), m)
    }
}

/// Persistence of directed message threads, keyed by the
/// (giver, recipient) pair.
pub struct RelayStore {
    threads: Vec<Message>,
}

impl View for RelayStore {
    type V = Seq<MessageView>;

    closed spec fn view(&self) -> Seq<MessageView> {
        self.threads.deep_view()
    }
}

proof fn lemma_find_message_prefix(threads: Seq<MessageView>, s: int, c: int, i: int)
    requires
        0 <= i <= threads.len(),
        forall|k: int|
            0 <= k < i ==> !(threads[k].santa_id == s && threads[k].child_id == c),
    ensures
        spec_find_message(threads, s, c) == spec_find_message(threads.skip(i), s, c),
    decreases i,
{
    if i > 0 {
        lemma_find_message_prefix(threads.skip(1), s, c, i - 1);
        assert(threads.skip(1).skip(i - 1) =~= threads.skip(i));
    } else {
        assert(threads.skip(0) =~= threads);
    }
}

proof fn lemma_save_message_update(threads: Seq<MessageView>, m: MessageView, i: int)
    requires
        0 <= i < threads.len(),
        threads[i].santa_id == m.santa_id && threads[i].child_id == m.child_id,
        forall|k: int|
            0 <= k < i ==> !(threads[k].santa_id == m.santa_id && threads[k].child_id
                == m.child_id),
    ensures
        spec_save_message(threads, m) == threads.update(i, spec_appended(threads[i], m)),
    decreases i,
{
    if i == 0 {
        assert(spec_save_message(threads, m) =~= threads.update(
            0,
            spec_appended(threads[0], m),
        ));
    } else {
        lemma_save_message_update(threads.skip(1), m, i - 1);
        assert(threads.skip(1)[i - 1] == threads[i]);
        assert(spec_save_message(threads, m) =~= threads.update(
            i,
            spec_appended(threads[i], m),
        ));
    }
}

proof fn lemma_save_message_insert(threads: Seq<MessageView>, m: MessageView)
    requires
        forall|k: int|
            0 <= k < threads.len() ==> !(threads[k].santa_id == m.santa_id
                && threads[k].child_id == m.child_id),
    ensures
        spec_save_message(threads, m) == threads.push(m),
    decreases threads.len(),
{
    if threads.len() == 0 {
        assert(spec_save_message(threads, m) =~= threads.push(m));
    } else {
        lemma_save_message_insert(threads.skip(1), m);
        assert(spec_save_message(threads, m) =~= threads.push(m));
    }
}

impl RelayStore {
    /// No two threads share a directed pair.
    pub open spec fn wf(&self) -> bool {
        forall|i: int, j: int|
            0 <= i < j < self@.len() ==> !(self@[i].santa_id == self@[j].santa_id
                && self@[i].child_id == self@[j].child_id)
    }

    /// An empty store.
    pub fn new() -> (s: RelayStore)
        ensures
            s@ == Seq::<MessageView>::empty(),
            s.wf(),
    {
        RelayStore { threads: Vec::new() }
    }

    /// Point lookup of the thread for a directed pair.
    pub fn find_message(&self, santa_id: i64, child_id: i64) -> (r: Option<Message>)
        ensures
            r.deep_view() == spec_find_message(self@, santa_id as int, child_id as int),
    {
        let n = self.threads.len();
        let mut i: usize = 0;
        while i < n
            invariant
                i <= n,
                n == self@.len(),
                forall|k: int|
                    0 <= k < i ==> !(self@[k].santa_id == santa_id as int && self@[k].child_id
                        == child_id as int),
            decreases n - i,
        {
            if self.threads[i].santa_id == santa_id && self.threads[i].child_id == child_id {
                proof {
                    lemma_find_message_prefix(self@, santa_id as int, child_id as int, i as int);
                    assert(self@.skip(i as int)[0] == self@[i as int]);
                }
                return Some(self.threads[i].duplicate());
            }
            i = i + 1;
        }
        proof {
            lemma_find_message_prefix(self@, santa_id as int, child_id as int, n as int);
            assert(self@.skip(n as int) =~= Seq::<MessageView>::empty());
        }
        None
    }

    /// Append-or-create for one directed message: the existing thread for
    /// the pair accumulates the text after a newline and takes the
    /// message's time as its last-update timestamp, or a new thread is
    /// created.  No second thread for an already-used direction ever
    /// appears.
    pub fn save_message(&mut self, message_dto: Message)
        requires
            old(self).wf(),
        ensures
            final(self)@ == spec_save_message(old(self)@, message_dto@),
            final(self).wf(),
    {
        let ghost orig = self@;
        let n = self.threads.len();
        let mut i: usize = 0;
        while i < n
            invariant
                i <= n,
                n == self@.len(),
                self@ == orig,
                orig == old(self)@,
                forall|k: int|
                    0 <= k < i ==> !(self@[k].santa_id == message_dto@.santa_id
                        && self@[k].child_id == message_dto@.child_id),
                forall|p: int, q: int|
                    0 <= p < q < orig.len() ==> !(orig[p].santa_id == orig[q].santa_id
                        && orig[p].child_id == orig[q].child_id),
            decreases n - i,
        {
            if self.threads[i].santa_id == message_dto.santa_id && self.threads[i].child_id
                == message_dto.child_id {
                proof {
                    lemma_save_message_update(orig, message_dto@, i as int);
                    reveal_strlit("\n");
                    assert("\n"@ =~= seq!['\n']);
                }
                self.threads[i].message.append("\n");
                self.threads[i].message.append(message_dto.message.as_str());
                self.threads[i].create_date = message_dto.create_date;
                proof {
                    assert(self@ =~= orig.update(
                        i as int,
                        spec_appended(orig[i as int], message_dto@),
                    ));
                    assert forall|p: int, q: int|
                        0 <= p < q < self@.len() implies !(self@[p].santa_id == self@[q].santa_id
                        && self@[p].child_id == self@[q].child_id) by {
                        assert(!(orig[p].santa_id == orig[q].santa_id && orig[p].child_id
                            == orig[q].child_id));
                    }
                }
                return ;
            }
            i = i + 1;
        }
        proof {
            lemma_save_message_insert(orig, message_dto@);
        }
        self.threads.push(message_dto);
        proof {
            assert(self@ =~= orig.push(self@[self@.len() - 1]));
            assert forall|p: int, q: int|
                0 <= p < q < self@.len() implies !(self@[p].santa_id == self@[q].santa_id
                && self@[p].child_id == self@[q].child_id) by {
                if q < self@.len() - 1 {
                    assert(!(orig[p].santa_id == orig[q].santa_id && orig[p].child_id
                        == orig[q].child_id));
                }
            }
        }
    }

}

/// An identity with no row yet has no matching row at any position.
proof fn lemma_find_user_none_no_match(rows: Seq<UserRecordView>, id: int)
    requires
        spec_find_user(rows, id) is None,
    ensures
        forall|k: int| 0 <= k < rows.len() ==> rows[k].id != id,
    decreases rows.len(),
{
    if rows.len() > 0 {
        lemma_find_user_none_no_match(rows.skip(1), id);
        assert forall|k: int| 0 <= k < rows.len() implies rows[k].id != id by {
            if k > 0 {
                assert(rows.skip(1)[k - 1] == rows[k]);
            }
        }
    }
}

/// The row found for an identity whose only matching row is the last one.
proof fn lemma_find_user_at_end(rows: Seq<UserRecordView>, row: UserRecordView)
    requires
        forall|k: int| 0 <= k < rows.len() ==> rows[k].id != row.id,
    ensures
        spec_find_user(rows.push(row), row.id) == Some(row),
    decreases rows.len(),
{
    if rows.len() > 0 {
        assert(rows.push(row).skip(1) =~= rows.skip(1).push(row));
        lemma_find_user_at_end(rows.skip(1), row);
    }
}

/// Saving a participant whose identity the store has never seen and
/// reading that identity back restores the participant exactly, except
/// that the stored assignments start absent.
pub proof fn lemma_store_round_trip(rows: Seq<UserRecordView>, u: UserView)
    requires
        spec_find_user(rows, u.id) is None,
    ensures
        spec_get_user(spec_save_user(rows, u), u.id) == Some(
            UserView { child: None, santa: None, ..u },
        ),
{
    lemma_find_user_none_no_match(rows, u.id);
    lemma_save_user_insert(rows, u);
    lemma_find_user_at_end(rows, spec_new_row(u));
    crate::types::lemma_state_label_round_trip(u.state);
}

/// A pair with no thread yet has no matching record at any position.
proof fn lemma_find_none_no_match(threads: Seq<MessageView>, s: int, c: int)
    requires
        spec_find_message(threads, s, c) is None,
    ensures
        forall|k: int|
            0 <= k < threads.len() ==> !(threads[k].santa_id == s && threads[k].child_id == c),
    decreases threads.len(),
{
    if threads.len() > 0 {
        lemma_find_none_no_match(threads.skip(1), s, c);
        assert forall|k: int|
            0 <= k < threads.len() implies !(threads[k].santa_id == s && threads[k].child_id
            == c) by {
            if k > 0 {
                assert(threads.skip(1)[k - 1] == threads[k]);
            }
        }
    }
}

/// Saving a message for a pair with no thread appends a fresh record.
proof fn lemma_save_message_fresh(threads: Seq<MessageView>, m: MessageView)
    requires
        spec_find_message(threads, m.santa_id, m.child_id) is None,
    ensures
        spec_save_message(threads, m) == threads.push(m),
    decreases threads.len(),
{
    if threads.len() == 0 {
        assert(spec_save_message(threads, m) =~= threads.push(m));
    } else {
        lemma_save_message_fresh(threads.skip(1), m);
        assert(spec_save_message(threads, m) =~= threads.push(m));
    }
}

/// Saving a message whose only matching thread is the last record appends
/// the text to that record.
proof fn lemma_save_message_at_end(threads: Seq<MessageView>, t: MessageView, m: MessageView)
    requires
        t.santa_id == m.santa_id,
        t.child_id == m.child_id,
        forall|k: int|
            0 <= k < threads.len() ==> !(threads[k].santa_id == m.santa_id && threads[k].child_id
                == m.child_id),
    ensures
        spec_save_message(threads.push(t), m) == threads.push(spec_appended(t, m)),
    decreases threads.len(),
{
    if threads.len() == 0 {
        assert(threads.push(t)[0] == t);
        assert(threads.push(t).skip(1) =~= Seq::<MessageView>::empty());
        assert(spec_save_message(threads.push(t), m) =~= threads.push(spec_appended(t, m)));
    } else {
        assert(threads.push(t).skip(1) =~= threads.skip(1).push(t));
        lemma_save_message_at_end(threads.skip(1), t, m);
        assert(spec_save_message(threads.push(t), m) =~= threads.push(spec_appended(t, m)));
    }
}

/// The thread found for a pair whose only matching record is the last one.
proof fn lemma_find_message_at_end(threads: Seq<MessageView>, t: MessageView)
    requires
        forall|k: int|
            0 <= k < threads.len() ==> !(threads[k].santa_id == t.santa_id && threads[k].child_id
                == t.child_id),
    ensures
        spec_find_message(threads.push(t), t.santa_id, t.child_id) == Some(t),
    decreases threads.len(),
{
    if threads.len() > 0 {
        assert(threads.push(t).skip(1) =~= threads.skip(1).push(t));
        lemma_find_message_at_end(threads.skip(1), t);
    }
}

/// The thread count for a pair whose only matching record is the last one.
proof fn lemma_count_at_end(threads: Seq<MessageView>, t: MessageView)
    requires
        forall|k: int|
            0 <= k < threads.len() ==> !(threads[k].santa_id == t.santa_id && threads[k].child_id
                == t.child_id),
    ensures
        spec_thread_count(threads.push(t), t.santa_id, t.child_id) == 1,
    decreases threads.len(),
{
    if threads.len() > 0 {
        assert(threads.push(t)[0] == threads[0]);
        assert(threads.push(t).skip(1) =~= threads.skip(1).push(t));
        lemma_count_at_end(threads.skip(1), t);
    } else {
        assert(threads.push(t)[0] == t);
        assert(threads.push(t).skip(1) =~= Seq::<MessageView>::empty());
        assert(spec_thread_count(Seq::<MessageView>::empty(), t.santa_id, t.child_id) == 0);
    }
}

/// Sending text A and then text B in the same direction for the same pair
/// accumulates both into the one thread for that pair: the history holds
/// A's line followed by B's line separated by a newline, the timestamp is
/// that of the last update, and exactly one record for the pair exists.
pub proof fn lemma_relay_single_thread(threads: Seq<MessageView>, m1: MessageView, m2: MessageView)
    requires
        m1.santa_id == m2.santa_id,
        m1.child_id == m2.child_id,
        spec_find_message(threads, m1.santa_id, m1.child_id) is None,
    ensures
        ({
            let after = spec_save_message(spec_save_message(threads, m1), m2);
            &&& spec_find_message(after, m1.santa_id, m1.child_id) == Some(MessageView {
                santa_id: m1.santa_id,
                child_id: m1.child_id,
                message: m1.message + seq!['\n'] + m2.message,
                create_date: m2.create_date,
            })
            &&& spec_thread_count(after, m1.santa_id, m1.child_id) == 1
        }),
{
    lemma_find_none_no_match(threads, m1.santa_id, m1.child_id);
    lemma_save_message_fresh(threads, m1);
    lemma_save_message_at_end(threads, m1, m2);
    let t = spec_appended(m1, m2);
    assert(t == (MessageView {
        santa_id: m1.santa_id,
        child_id: m1.child_id,
        message: m1.message + seq!['\n'] + m2.message,
        create_date: m2.create_date,
    }));
    lemma_find_message_at_end(threads, t);
    lemma_count_at_end(threads, t);
}

impl RelayStore {
    /// How many threads the store holds for a directed pair.
    pub fn thread_count(&self, santa_id: i64, child_id: i64) -> (r: usize)
        ensures
            r == spec_thread_count(self@, santa_id as int, child_id as int),
    {
        let n = self.threads.len();
        let mut count: usize = 0;
        let mut i: usize = 0;
        proof {
            assert(self@.skip(0) =~= self@);
        }
        while i < n
            invariant
                i <= n,
                n == self@.len(),
                count <= i,
                count + spec_thread_count(self@.skip(i as int), santa_id as int, child_id as int)
                    == spec_thread_count(self@, santa_id as int, child_id as int),
            decreases n - i,
        {
            proof {
                assert(self@.skip(i as int).skip(1) =~= self@.skip(i + 1));
                assert(self@.skip(i as int)[0] == self@[i as int]);
            }
            if self.threads[i].santa_id == santa_id && self.threads[i].child_id == child_id {
                count = count + 1;
            }
            i = i + 1;
        }
        proof {
            assert(self@.skip(n as int) =~= Seq::<MessageView>::empty());
        }
        count
    }
}

} // verus!
