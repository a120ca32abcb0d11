//! Participant data model: conversation states, participants, relayed
//! message records, persisted rows, and their mathematical views.

use vstd::prelude::*;
use vstd::string::StringExecFns;

use crate::text::str_eq;

verus! {

/// The finite set of conversation positions a participant can be in.
///
/// The position "no active sub-flow" has two encodings in a participant
/// record: the absent state (`None`) and the explicit `Start` variant.  Both
/// are handled by the same controller branch; the stored label keeps the two
/// encodings apart so that reading a record back restores exactly what was
/// written (see `lemma_state_label_round_trip`).
#[derive(Clone, Copy, Debug, PartialEq, Eq, Structural)]
pub enum State {
    Start,
    ReceiveName,
    ReceiveWish,
    ReceiveCity,
    ChildChat,
    SantaChat,
    ChangeWishList,
    Finish,
    Distributed,
}

/// The label under which a (possibly absent) conversation state is persisted.
pub open spec fn spec_state_label(s: Option<State>) -> Seq<char> {
    match s {
        None => ""@,
        Some(State::Start) => "Start"@,
        Some(State::ReceiveName) => "ReceiveName"@,
        Some(State::ReceiveWish) => "ReceiveWish"@,
        Some(State::ReceiveCity) => "ReceiveCity"@,
        Some(State::ChildChat) => "ChildChat"@,
        Some(State::SantaChat) => "SantaChat"@,
        Some(State::ChangeWishList) => "ChangeWishList"@,
        Some(State::Finish) => "Finish"@,
        Some(State::Distributed) => "Distributed"@,
    }
}

/// The (possibly absent) conversation state a persisted label stands for.
/// A label that is no state's name reads as the absent state.
pub open spec fn spec_parse_state(s: Seq<char>) -> Option<State> {
    if s == "Start"@ {
        Some(State::Start)
    } else if s == "ReceiveName"@ {
        Some(State::ReceiveName)
    } else if s == "ReceiveWish"@ {
        Some(State::ReceiveWish)
    } else if s == "ReceiveCity"@ {
        Some(State::ReceiveCity)
    } else if s == "ChildChat"@ {
        Some(State::ChildChat)
    } else if s == "SantaChat"@ {
        Some(State::SantaChat)
    } else if s == "ChangeWishList"@ {
        Some(State::ChangeWishList)
    } else if s == "Finish"@ {
        Some(State::Finish)
    } else if s == "Distributed"@ {
        Some(State::Distributed)
    } else {
        None
    }
}

/// The label under which a conversation state is persisted.
pub fn state_label(s: &Option<State>) -> (r: String)
    ensures
        r@ == spec_state_label(*s),
{
    proof {
        reveal_strlit("");
    }
    match s {
        None => String::new(),
        Some(State::Start) => String::from_str("Start"),
        Some(State::ReceiveName) => String::from_str("ReceiveName"),
        Some(State::ReceiveWish) => String::from_str("ReceiveWish"),
        Some(State::ReceiveCity) => String::from_str("ReceiveCity"),
        Some(State::ChildChat) => String::from_str("ChildChat"),
        Some(State::SantaChat) => String::from_str("SantaChat"),
        Some(State::ChangeWishList) => String::from_str("ChangeWishList"),
        Some(State::Finish) => String::from_str("Finish"),
        Some(State::Distributed) => String::from_str("Distributed"),
    }
}

/// Reads a persisted label back as a conversation state.
pub fn parse_state(s: &str) -> (r: Option<State>)
    ensures
        r == spec_parse_state(s@),
{
    if str_eq(s, "Start") {
        Some(State::Start)
    } else if str_eq(s, "ReceiveName") {
        Some(State::ReceiveName)
    } else if str_eq(s, "ReceiveWish") {
        Some(State::ReceiveWish)
    } else if str_eq(s, "ReceiveCity") {
        Some(State::ReceiveCity)
    } else if str_eq(s, "ChildChat") {
        Some(State::ChildChat)
    } else if str_eq(s, "SantaChat") {
        Some(State::SantaChat)
    } else if str_eq(s, "ChangeWishList") {
        Some(State::ChangeWishList)
    } else if str_eq(s, "Finish") {
        Some(State::Finish)
    } else if str_eq(s, "Distributed") {
        Some(State::Distributed)
    } else {
        None
    }
}

/// Persisting a state and reading it back restores it exactly: the label
/// encoding is a bijection between possibly-absent states and their labels.
pub proof fn lemma_state_label_round_trip(s: Option<State>)
    ensures
        spec_parse_state(spec_state_label(s)) == s,
{
    reveal_strlit("");
    reveal_strlit("Start");
    reveal_strlit("ReceiveName");
    reveal_strlit("ReceiveWish");
    reveal_strlit("ReceiveCity");
    reveal_strlit("ChildChat");
    reveal_strlit("SantaChat");
    reveal_strlit("ChangeWishList");
    reveal_strlit("Finish");
    reveal_strlit("Distributed");
    assert(""@.len() == 0);
    assert("Start"@.len() == 5);
    assert("ReceiveName"@.len() == 11);
    assert("ReceiveWish"@.len() == 11);
    assert("ReceiveCity"@.len() == 11);
    assert("ChildChat"@.len() == 9);
    assert("SantaChat"@.len() == 9);
    assert("ChangeWishList"@.len() == 14);
    assert("Finish"@.len() == 6);
    assert("Distributed"@.len() == 11);
    assert("ReceiveName"@[0] == 'R');
    assert("ReceiveWish"@[0] == 'R');
    assert("ReceiveCity"@[0] == 'R');
    assert("Distributed"@[0] == 'D');
    assert("ReceiveName"@[7] == 'N');
    assert("ReceiveWish"@[7] == 'W');
    assert("ReceiveCity"@[7] == 'C');
    assert("ChildChat"@[0] == 'C');
    assert("SantaChat"@[0] == 'S');
}

/// One registered participant of the exchange.
///
/// `id` is the participant's stable identity; it coincides with `chat_id`,
/// the conversational endpoint the transport delivers to.  `child` is the
/// identity this participant gives a gift to, `santa` the identity they
/// receive from; both stay absent until distribution has run.
#[derive(Clone, Debug, PartialEq)]
pub struct User {
    pub id: i64,
    pub chat_id: i64,
    pub child: Option<i64>,
    pub santa: Option<i64>,
    pub nickname: String,
    pub username: String,
    pub wish_text: String,
    pub city: String,
    pub state: Option<State>,
    pub create_date: i64,
}

/// The mathematical value of a `User`.
pub struct UserView {
    pub id: int,
    pub chat_id: int,
    pub child: Option<int>,
    pub santa: Option<int>,
    pub nickname: Seq<char>,
    pub username: Seq<char>,
    pub wish_text: Seq<char>,
    pub city: Seq<char>,
    pub state: Option<State>,
    pub create_date: int,
}

/// The mathematical value of a possibly-absent identity reference.
pub open spec fn spec_id_ref(r: Option<i64>) -> Option<int> {
    match r {
        None => None,
        Some(i) => Some(i as int),
    }
}

impl View for User {
    type V = UserView;

    open spec fn view(&self) -> UserView {
        UserView {
            id: self.id as int,
            chat_id: self.chat_id as int,
            child: spec_id_ref(self.child),
            santa: spec_id_ref(self.santa),
            nickname: self.nickname@,
            username: self.username@,
            wish_text: self.wish_text@,
            city: self.city@,
            state: self.state,
            create_date: self.create_date as int,
        }
    }
}

impl DeepView for User {
    type V = UserView;

    open spec fn deep_view(&self) -> UserView {
        self.view()
    }
}

/// One accumulated message thread for a directed giver-to-recipient pair.
///
/// `message` holds the whole newline-delimited history, newest appended
/// last; `create_date` is the last-update timestamp: the time of the most
/// recently appended message.
#[derive(Clone, Debug, PartialEq)]
pub struct Message {
    pub santa_id: i64,
    pub child_id: i64,
    pub message: String,
    pub create_date: i64,
}

/// The mathematical value of a `Message`.
pub struct MessageView {
    pub santa_id: int,
    pub child_id: int,
    pub message: Seq<char>,
    pub create_date: int,
}

impl View for Message {
    type V = MessageView;

    open spec fn view(&self) -> MessageView {
        MessageView {
            santa_id: self.santa_id as int,
            child_id: self.child_id as int,
            message: self.message@,
            create_date: self.create_date as int,
        }
    }
}

impl DeepView for Message {
    type V = MessageView;

    open spec fn deep_view(&self) -> MessageView {
        self.view()
    }
}

/// A participant as the record store persists it: the conversation state is
/// flattened to its label.
#[derive(Clone, Debug, PartialEq)]
pub struct UserRecord {
    pub id: i64,
    pub chat_id: i64,
    pub child: Option<i64>,
    pub santa: Option<i64>,
    pub nickname: String,
    pub username: String,
    pub wish_text: String,
    pub state: String,
    pub city: String,
    pub create_date: i64,
}

/// The mathematical value of a `UserRecord`.
pub struct UserRecordView {
    pub id: int,
    pub chat_id: int,
    pub child: Option<int>,
    pub santa: Option<int>,
    pub nickname: Seq<char>,
    pub username: Seq<char>,
    pub wish_text: Seq<char>,
    pub state: Seq<char>,
    pub city: Seq<char>,
    pub create_date: int,
}

impl View for UserRecord {
    type V = UserRecordView;

    open spec fn view(&self) -> UserRecordView {
        UserRecordView {
            id: self.id as int,
            chat_id: self.chat_id as int,
            child: spec_id_ref(self.child),
            santa: spec_id_ref(self.santa),
            nickname: self.nickname@,
            username: self.username@,
            wish_text: self.wish_text@,
            state: self.state@,
            city: self.city@,
            create_date: self.create_date as int,
        }
    }
}

impl DeepView for UserRecord {
    type V = UserRecordView;

    open spec fn deep_view(&self) -> UserRecordView {
        self.view()
    }
}

impl UserRecord {
    /// An owned copy, equal to the original.
    pub fn duplicate(&self) -> (r: UserRecord)
        ensures
            r == *self,
    {
        UserRecord {
            id: self.id,
            chat_id: self.chat_id,
            child: self.child,
            santa: self.santa,
            nickname: self.nickname.clone(),
            username: self.username.clone(),
            wish_text: self.wish_text.clone(),
            state: self.state.clone(),
            city: self.city.clone(),
            create_date: self.create_date,
        }
    }
}

impl Message {
    /// An owned copy, equal to the original.
    pub fn duplicate(&self) -> (r: Message)
        ensures
            r == *self,
    {
        Message {
            santa_id: self.santa_id,
            child_id: self.child_id,
            message: self.message.clone(),
            create_date: self.create_date,
        }
    }
}

/// The participant a persisted row stands for.
pub open spec fn spec_to_user(r: UserRecordView) -> UserView {
    UserView {
        id: r.id,
        chat_id: r.chat_id,
        child: r.child,
        santa: r.santa,
        nickname: r.nickname,
        username: r.username,
        wish_text: r.wish_text,
        city: r.city,
        state: spec_parse_state(r.state),
        create_date: r.create_date,
    }
}

/// A participant with every profile field empty and no assignments.
pub open spec fn spec_default_user(chat_id: int, nickname: Seq<char>, create_date: int) -> UserView {
    UserView {
        id: chat_id,
        chat_id: chat_id,
        child: None,
        santa: None,
        nickname: nickname,
        username: Seq::<char>::empty(),
        wish_text: Seq::<char>::empty(),
        city: Seq::<char>::empty(),
        state: None,
        create_date: create_date,
    }
}

/// Relies on chrono::Utc::now, read as Unix seconds; nothing is assumed of
/// the value it returns.  The call itself aborts on a machine whose clock
/// is set before the Unix epoch.
#[verifier::external_body]
fn now_timestamp() -> i64 {
    chrono::Utc::now().timestamp()
}

impl User {
    /// Reads a persisted row back as a participant.
    pub fn to_user(user: UserRecord) -> (r: User)
        ensures
            r@ == spec_to_user(user@),
    {
        let state = parse_state(user.state.as_str());
        User {
            id: user.id,
            chat_id: user.chat_id,
            child: user.child,
            santa: user.santa,
            nickname: user.nickname,
            username: user.username,
            wish_text: user.wish_text,
            city: user.city,
            state: state,
            create_date: user.create_date,
        }
    }

    /// Reads a list of persisted rows back as participants, keeping order.
    pub fn to_users(users: Vec<UserRecord>) -> (r: Vec<User>)
        ensures
            r.deep_view() == users.deep_view().map_values(|rv: UserRecordView| spec_to_user(rv)),
    {
        let ghost orig = users.deep_view();
        let mut rows = users;
        let mut out: Vec<User> = Vec::new();
        proof {
            assert(out.deep_view() + rows.deep_view().map_values(
                |rv: UserRecordView| spec_to_user(rv),
            ) =~= orig.map_values(|rv: UserRecordView| spec_to_user(rv)));
        }
        while rows.len() > 0
            invariant
                out.deep_view() + rows.deep_view().map_values(
                    |rv: UserRecordView| spec_to_user(rv),
                ) == orig.map_values(|rv: UserRecordView| spec_to_user(rv)),
            decreases rows.len(),
        {
            let ghost pre_out = out.deep_view();
            let ghost pre_rows = rows.deep_view();
            let row = rows.remove(0);
            out.push(User::to_user(row));
            proof {
                assert(rows.deep_view() =~= pre_rows.skip(1));
                assert(out.deep_view() + rows.deep_view().map_values(
                    |rv: UserRecordView| spec_to_user(rv),
                ) =~= pre_out + pre_rows.map_values(|rv: UserRecordView| spec_to_user(rv)));
            }
        }
        proof {
            assert(out.deep_view() =~= out.deep_view() + rows.deep_view().map_values(
                |rv: UserRecordView| spec_to_user(rv),
            ));
        }
        out
    }

    /// A fresh participant for an identity seen for the first time, stamped
    /// with the clock's current time.  Reading the clock aborts on a
    /// machine whose clock is set before the Unix epoch; pass the time
    /// explicitly through `default_user_at` to avoid the clock entirely.
    pub fn default_user(chat_id: i64, nickname: String) -> (r: Option<User>)
        ensures
            r matches Some(u) && u@ == spec_default_user(
                chat_id as int,
                nickname@,
                u@.create_date,
            ),
    {
        let create_date = now_timestamp();
        Some(User::default_user_at(chat_id, nickname, create_date))
    }

    /// A fresh participant for an identity seen for the first time, stamped
    /// with the given creation time.
    pub fn default_user_at(chat_id: i64, nickname: String, create_date: i64) -> (r: User)
        ensures
            r@ == spec_default_user(chat_id as int, nickname@, create_date as int),
    {
        User {
            id: chat_id,
            chat_id: chat_id,
            child: None,
            santa: None,
            nickname: nickname,
            username: String::new(),
            wish_text: String::new(),
            city: String::new(),
            state: None,
            create_date: create_date,
        }
    }

    /// Records who gives a gift to this participant.
    pub fn set_santa(&mut self, santa_id: i64)
        ensures
            final(self)@ == (UserView { santa: Some(santa_id as int), ..old(self)@ }),
    {
        self.santa = Some(santa_id);
    }

    /// Records who this participant gives a gift to.
    pub fn set_child(&mut self, child_id: i64)
        ensures
            final(self)@ == (UserView { child: Some(child_id as int), ..old(self)@ }),
    {
        self.child = Some(child_id);
    }
}

} // verus!

