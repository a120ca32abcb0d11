//! Administrative commands and the event-wide operations they trigger:
//! distribution across the two city groups and notification of the
//! computed assignments.

use vstd::prelude::*;

use crate::distribution::distribute;
use crate::distribution::partition_by_city;
use crate::distribution::spec_all_unassigned;
use crate::distribution::spec_city_group;
use crate::distribution::spec_distribute;
use crate::distribution::spec_has_self_pair;
use crate::distribution::DistributeError;
use crate::states::Effect;
use crate::states::EffectView;
use crate::states::Keyboard;
use crate::states::Notice;
use crate::states::Payload;
use crate::states::PayloadView;
use crate::states::spec_notice;
use crate::states::spec_notice_kb;
use crate::store::ParticipantStore;
use crate::store::spec_save_users;
use crate::text::str_eq;
use crate::types::State;
use crate::types::User;
use crate::types::UserRecordView;
use crate::types::UserView;
use crate::types::spec_to_user;

verus! {

/// A bot command, as the transport decodes it from a leading-slash line.
#[derive(Clone, Copy, Debug, PartialEq, Eq, Structural)]
pub enum Command {
    Start,
    Help,
    List,
    Distribute,
    Notify,
}

/// What the command dispatcher decides to do with a command.
#[derive(Clone, Copy, Debug, PartialEq, Eq, Structural)]
pub enum CommandAction {
    /// Feed the start signal into the conversation machine.
    StartRegistration,
    /// Show the help text.
    ShowHelp,
    /// List every stored participant to the administrator.
    ListUsers,
    /// Run the distribution across the two city groups.
    RunDistribution,
    /// Announce every computed assignment.
    RunNotify,
    /// Do nothing.
    Ignore,
}

/// The command a line of text names, if any.
pub open spec fn spec_parse_command(s: Seq<char>) -> Option<Command> {
    if s == "/start"@ {
        Some(Command::Start)
    } else if s == "/help"@ {
        Some(Command::Help)
    } else if s == "/list"@ {
        Some(Command::List)
    } else if s == "/distribute"@ {
        Some(Command::Distribute)
    } else if s == "/notify"@ {
        Some(Command::Notify)
    } else {
        None
    }
}

/// Decodes a line of text as a bot command.
pub fn parse_command(text: &str) -> (r: Option<Command>)
    ensures
        r == spec_parse_command(text@),
{
    if str_eq(text, "/start") {
        Some(Command::Start)
    } else if str_eq(text, "/help") {
        Some(Command::Help)
    } else if str_eq(text, "/list") {
        Some(Command::List)
    } else if str_eq(text, "/distribute") {
        Some(Command::Distribute)
    } else if str_eq(text, "/notify") {
        Some(Command::Notify)
    } else {
        None
    }
}

/// Which action a command triggers for a given sender: the administrative
/// commands answer only to the configured administrator identity; the
/// others are open to everyone.
pub open spec fn spec_dispatch_command(cmd: Command, sender_id: int, admin_id: int) -> CommandAction {
    match cmd {
        Command::Start => CommandAction::StartRegistration,
        Command::Help => CommandAction::ShowHelp,
        Command::List => if sender_id == admin_id {
            CommandAction::ListUsers
        } else {
            CommandAction::Ignore
        },
        Command::Distribute => if sender_id == admin_id {
            CommandAction::RunDistribution
        } else {
            CommandAction::Ignore
        },
        Command::Notify => if sender_id == admin_id {
            CommandAction::RunNotify
        } else {
            CommandAction::Ignore
        },
    }
}

/// Decides what a command does for a given sender.  The administrator
/// identity is explicit configuration, never read from anywhere else.
pub fn dispatch_command(cmd: Command, sender_id: i64, admin_id: i64) -> (r: CommandAction)
    ensures
        r == spec_dispatch_command(cmd, sender_id as int, admin_id as int),
{
    match cmd {
        Command::Start => CommandAction::StartRegistration,
        Command::Help => CommandAction::ShowHelp,
        Command::List => if sender_id == admin_id {
            CommandAction::ListUsers
        } else {
            CommandAction::Ignore
        },
        Command::Distribute => if sender_id == admin_id {
            CommandAction::RunDistribution
        } else {
            CommandAction::Ignore
        },
        Command::Notify => if sender_id == admin_id {
            CommandAction::RunNotify
        } else {
            CommandAction::Ignore
        },
    }
}

/// The first participant whose endpoint is the given one, scanning front
/// to back.
pub open spec fn spec_lookup_by_chat(users: Seq<UserView>, chat_id: int) -> Option<UserView>
    decreases users.len(),
{
    if users.len() == 0 {
        None
    } else if users[0].chat_id == chat_id {
        Some(users[0])
    } else {
        spec_lookup_by_chat(users.skip(1), chat_id)
    }
}

proof fn lemma_lookup_by_chat_prefix(users: Seq<UserView>, chat_id: int, i: int)
    requires
        0 <= i <= users.len(),
        forall|k: int| 0 <= k < i ==> users[k].chat_id != chat_id,
    ensures
        spec_lookup_by_chat(users, chat_id) == spec_lookup_by_chat(users.skip(i), chat_id),
    decreases i,
{
    if i > 0 {
        lemma_lookup_by_chat_prefix(users.skip(1), chat_id, i - 1);
        assert(users.skip(1).skip(i - 1) =~= users.skip(i));
    } else {
        assert(users.skip(0) =~= users);
    }
}

/// Finds the position of the first participant with the given endpoint.
fn lookup_by_chat(users: &Vec<User>, chat_id: i64) -> (r: Option<usize>)
    ensures
        match r {
            Some(ix) => ix < users@.len() && spec_lookup_by_chat(users.deep_view(), chat_id as int)
                == Some(users.deep_view()[ix as int]),
            None => spec_lookup_by_chat(users.deep_view(), chat_id as int) is None,
        },
{
    let n = users.len();
    let mut i: usize = 0;
    while i < n
        invariant
            i <= n,
            n == users@.len(),
            forall|k: int|
                #![trigger users.deep_view()[k]]
                0 <= k < i ==> users.deep_view()[k].chat_id != chat_id as int,
        decreases n - i,
    {
        if users[i].chat_id == chat_id {
            proof {
                lemma_lookup_by_chat_prefix(users.deep_view(), chat_id as int, i as int);
                assert(users.deep_view().skip(i as int)[0] == users.deep_view()[i as int]);
            }
            return Some(i);
        }
        proof {
            assert(users.deep_view()[i as int] == users@[i as int]@);
        }
        i = i + 1;
    }
    proof {
        lemma_lookup_by_chat_prefix(users.deep_view(), chat_id as int, n as int);
        assert(users.deep_view().skip(n as int) =~= Seq::<UserView>::empty());
    }
    None
}

/// Whether one participant gets an assignment announcement: they have a
/// recipient and the recipient's record resolves in the snapshot.
pub open spec fn spec_notified(all: Seq<UserView>, k: int) -> bool {
    all[k].child matches Some(c) && spec_lookup_by_chat(all, c) is Some
}

/// All participants after notification: those whose recipient resolves are
/// marked `Distributed`; the rest stay as they are.
pub open spec fn spec_notify_users(all: Seq<UserView>) -> Seq<UserView> {
    Seq::new(
        all.len(),
        |k: int|
            if spec_notified(all, k) {
                UserView { state: Some(State::Distributed), ..all[k] }
            } else {
                all[k]
            },
    )
}

/// The announcements for the participants from position `i` on: each
/// notified participant hears their recipient's display nickname (the name
/// registration stores), then the recipient's wish list, then the chat
/// menu.
pub open spec fn spec_notify_effects(all: Seq<UserView>, i: int) -> Seq<EffectView>
    decreases all.len() - i,
{
    if i < 0 || i >= all.len() {
        Seq::<EffectView>::empty()
    } else {
        (match all[i].child {
            Some(c) => match spec_lookup_by_chat(all, c) {
                Some(ch) => seq![
                    EffectView {
                        target: all[i].chat_id,
                        payload: PayloadView::AssignedChildName { name: ch.nickname },
                        keyboard: None,
                    },
                    EffectView {
                        target: all[i].chat_id,
                        payload: PayloadView::AssignedChildWish { wish: ch.wish_text },
                        keyboard: None,
                    },
                    spec_notice_kb(all[i].chat_id, Notice::ChatMenuPrompt, Keyboard::ChatMenu),
                ],
                None => Seq::<EffectView>::empty(),
            },
            None => Seq::<EffectView>::empty(),
        }) + spec_notify_effects(all, i + 1)
    }
}

/// Announces every computed assignment: each participant with a resolved
/// recipient hears who they give to and what that recipient wishes for,
/// and is marked `Distributed`.  A participant whose recipient cannot be
/// resolved is skipped and left unchanged; one with no recipient is left
/// alone.
pub fn notify_assignments(users: Vec<User>) -> (r: (Vec<User>, Vec<Effect>))
    ensures
        r.0.deep_view() == spec_notify_users(users.deep_view()),
        r.1.deep_view() == spec_notify_effects(users.deep_view(), 0),
{
    let ghost all = users.deep_view();
    let n = users.len();
    let mut effects: Vec<Effect> = Vec::new();
    let mut flags: Vec<bool> = Vec::new();
    let mut i: usize = 0;
    proof {
        assert(effects.deep_view() =~= Seq::<EffectView>::empty());
        assert(effects.deep_view() + spec_notify_effects(all, 0) =~= spec_notify_effects(all, 0));
    }
    while i < n
        invariant
            i <= n,
            n == users@.len(),
            users.deep_view() == all,
            flags@.len() == i,
            forall|k: int| 0 <= k < i ==> flags@[k] == spec_notified(all, k),
            effects.deep_view() + spec_notify_effects(all, i as int) == spec_notify_effects(
                all,
                0,
            ),
        decreases n - i,
    {
        let ghost pre_effects = effects.deep_view();
        proof {
            assert(users.deep_view()[i as int] == users@[i as int]@);
        }
        let mut notified = false;
        match users[i].child {
            Some(cid) => {
                match lookup_by_chat(&users, cid) {
                    Some(ix) => {
                        let target = users[i].chat_id;
                        let name = users[ix].nickname.clone();
                        let wish = users[ix].wish_text.clone();
                        proof {
                            assert(users.deep_view()[ix as int] == users@[ix as int]@);
                        }
                        effects.push(Effect {
                            target,
                            payload: Payload::AssignedChildName { name },
                            keyboard: None,
                        });
                        effects.push(Effect {
                            target,
                            payload: Payload::AssignedChildWish { wish },
                            keyboard: None,
                        });
                        effects.push(Effect {
                            target,
                            payload: Payload::Notice(Notice::ChatMenuPrompt),
                            keyboard: Some(Keyboard::ChatMenu),
                        });
                        notified = true;
                        proof {
                            assert(effects.deep_view() =~= pre_effects + spec_notify_effects(
                                all,
                                i as int,
                            ).take(3));
                        }
                    },
                    None => {},
                }
            },
            None => {},
        }
        flags.push(notified);
        i = i + 1;
        proof {
            assert(spec_notify_effects(all, i - 1) == spec_notify_effects(all, i - 1).take(3)
                + spec_notify_effects(all, i as int) || spec_notify_effects(all, i - 1)
                == spec_notify_effects(all, i as int));
            assert(effects.deep_view() + spec_notify_effects(all, i as int) =~= pre_effects
                + spec_notify_effects(all, i - 1));
        }
    }
    proof {
        assert(spec_notify_effects(all, n as int) =~= Seq::<EffectView>::empty());
        assert(effects.deep_view() =~= effects.deep_view() + spec_notify_effects(all, n as int));
    }
    let mut rest = users;
    let mut out: Vec<User> = Vec::new();
    let mut k: usize = 0;
    while k < n
        invariant
            k <= n,
            n == all.len(),
            flags@.len() == n,
            forall|p: int| 0 <= p < n ==> flags@[p] == spec_notified(all, p),
            rest@.len() == n - k,
            forall|p: int|
                #![trigger rest@[p]]
                0 <= p < rest@.len() ==> rest@[p]@ == all[k + p],
            out@.len() == k,
            forall|p: int|
                #![trigger out@[p]]
                0 <= p < k ==> out@[p]@ == spec_notify_users(all)[p],
        decreases n - k,
    {
        let mut u = rest.remove(0);
        if flags[k] {
            u.state = Some(State::Distributed);
        }
        out.push(u);
        k = k + 1;
    }
    proof {
        assert forall|p: int| 0 <= p < out.deep_view().len() implies out.deep_view()[p]
            == spec_notify_users(all)[p] by {
            assert(out.deep_view()[p] == out@[p]@);
        }
        assert(out.deep_view() =~= spec_notify_users(all));
    }
    (out, effects)
}

/// The store and the outbound effects after one notification round: the
/// whole recomputed participant list is written back.
pub open spec fn spec_run_notify(rows: Seq<UserRecordView>) -> (
    Seq<UserRecordView>,
    Seq<EffectView>,
) {
    let users = rows.map_values(|rv: UserRecordView| spec_to_user(rv));
    (spec_save_users(rows, spec_notify_users(users)), spec_notify_effects(users, 0))
}

/// Runs one notification round against the store and returns what must be
/// delivered.
pub fn run_notify(store: &mut ParticipantStore) -> (effects: Vec<Effect>)
    requires
        old(store).wf(),
    ensures
        (final(store)@, effects.deep_view()) == spec_run_notify(old(store)@),
        final(store).wf(),
{
    let users = store.get_all_users();
    let (updated, effects) = notify_assignments(users);
    store.save_users(updated);
    effects
}

/// One assignment announcement for every stored participant.
pub open spec fn spec_announcements(users: Seq<UserView>) -> Seq<EffectView> {
    Seq::new(users.len(), |k: int| spec_notice(users[k].chat_id, Notice::AssignmentAnnouncement))
}

/// The store and the outbound effects after one distribution trigger.
///
/// The stored participants are split into the two city groups; when the
/// pairing succeeds, the recomputed list is written back, the
/// administrator hears how many participants were paired, and every stored
/// participant hears the announcement.  When it is refused, the store is
/// untouched and the administrator hears the reason.
pub open spec fn spec_run_distribution(
    rows: Seq<UserRecordView>,
    city_a: Seq<char>,
    city_b: Seq<char>,
    admin_chat: int,
) -> (Seq<UserRecordView>, Seq<EffectView>) {
    let users = rows.map_values(|rv: UserRecordView| spec_to_user(rv));
    let ga = spec_city_group(users, city_a);
    let gb = spec_city_group(users, city_b);
    if ga.len() != gb.len() {
        (
            rows,
            seq![
                EffectView {
                    target: admin_chat,
                    payload: PayloadView::DistributionFailed {
                        reason: DistributeError::UnequalGroupSizes,
                    },
                    keyboard: None,
                },
            ],
        )
    } else if !(spec_all_unassigned(ga) && spec_all_unassigned(gb)) {
        (
            rows,
            seq![
                EffectView {
                    target: admin_chat,
                    payload: PayloadView::DistributionFailed {
                        reason: DistributeError::AlreadyAssigned,
                    },
                    keyboard: None,
                },
            ],
        )
    } else if spec_has_self_pair(ga, gb) {
        (
            rows,
            seq![
                EffectView {
                    target: admin_chat,
                    payload: PayloadView::DistributionFailed {
                        reason: DistributeError::SelfPairing,
                    },
                    keyboard: None,
                },
            ],
        )
    } else {
        let ready = spec_distribute(ga, gb);
        let rows2 = spec_save_users(rows, ready);
        let users2 = rows2.map_values(|rv: UserRecordView| spec_to_user(rv));
        (
            rows2,
            seq![
                EffectView {
                    target: admin_chat,
                    payload: PayloadView::DistributionDone { count: ready.len() as int },
                    keyboard: None,
                },
            ] + spec_announcements(users2),
        )
    }
}

/// Runs one distribution trigger against the store and returns what must
/// be delivered.
pub fn run_distribution(
    store: &mut ParticipantStore,
    city_a: &str,
    city_b: &str,
    admin_chat: i64,
) -> (effects: Vec<Effect>)
    requires
        old(store).wf(),
        city_a@ != city_b@,
    ensures
        (final(store)@, effects.deep_view()) == spec_run_distribution(
            old(store)@,
            city_a@,
            city_b@,
            admin_chat as int,
        ),
        final(store).wf(),
{
    let users = store.get_all_users();
    let (group_a, group_b) = partition_by_city(users, city_a, city_b);
    match distribute(group_a, group_b) {
        Err(reason) => {
            let mut effects: Vec<Effect> = Vec::new();
            effects.push(Effect {
                target: admin_chat,
                payload: Payload::DistributionFailed { reason },
                keyboard: None,
            });
            proof {
                assert(effects.deep_view() =~= spec_run_distribution(
                    old(store)@,
                    city_a@,
                    city_b@,
                    admin_chat as int,
                ).1);
            }
            effects
        },
        Ok(ready) => {
            let count = ready.len();
            store.save_users(ready);
            let after = store.get_all_users();
            let ghost users2 = after.deep_view();
            let mut effects: Vec<Effect> = Vec::new();
            effects.push(Effect {
                target: admin_chat,
                payload: Payload::DistributionDone { count },
                keyboard: None,
            });
            let m = after.len();
            let mut k: usize = 0;
            while k < m
                invariant
                    k <= m,
                    m == users2.len(),
                    after.deep_view() == users2,
                    effects.deep_view().len() == 1 + k,
                    effects.deep_view()[0] == (EffectView {
                        target: admin_chat as int,
                        payload: PayloadView::DistributionDone { count: count as int },
                        keyboard: None,
                    }),
                    forall|q: int|
                        #![trigger effects.deep_view()[q]]
                        1 <= q < 1 + k ==> effects.deep_view()[q] == spec_notice(
                            users2[q - 1].chat_id,
                            Notice::AssignmentAnnouncement,
                        ),
                decreases m - k,
            {
                let target = after[k].chat_id;
                proof {
                    assert(after.deep_view()[k as int] == after@[k as int]@);
                }
                let ghost pre_eff = effects.deep_view();
                effects.push(Effect {
                    target,
                    payload: Payload::Notice(Notice::AssignmentAnnouncement),
                    keyboard: None,
                });
                k = k + 1;
                proof {
                    assert(forall|q: int|
                        #![trigger effects.deep_view()[q]]
                        0 <= q < pre_eff.len() ==> effects.deep_view()[q] == pre_eff[q]);
                    assert(effects.deep_view()[k as int] == spec_notice(
                        users2[k - 1].chat_id,
                        Notice::AssignmentAnnouncement,
                    ));
                }
            }
            proof {
                let expected = spec_run_distribution(
                    old(store)@,
                    city_a@,
                    city_b@,
                    admin_chat as int,
                ).1;
                assert forall|p: int| 0 <= p < effects.deep_view().len() implies effects.deep_view()[p]
                    == expected[p] by {
                    if p > 0 {
                        assert(effects.deep_view()[p] == spec_notice(
                            users2[p - 1].chat_id,
                            Notice::AssignmentAnnouncement,
                        ));
                    }
                }
                assert(effects.deep_view() =~= expected);
            }
            effects
        },
    }
}

} // verus!
