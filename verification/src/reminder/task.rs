//! The poller: which reminders of a collection are due, and what to do
//! with each of them.
//!
//! The poller neither waits for a timer nor reads a collection nor sends a
//! message. It is told what happened, as an `Event`, and answers with what is
//! to be done next, as an `Action`. Between two ticks it is idle. A tick
//! starts a scan, in which the poller takes the collections one by one, has a
//! message sent for each reminder that is due, and after each message that
//! was delivered has the reminder written back with its next fire. A
//! collection that cannot be read is passed over, a message that cannot be
//! delivered leaves its reminder as it is, and a write-back that fails is not
//! tried again: none of them ends the scan. A tick that comes during a scan
//! is not taken up: scans do not overlap.

use crate::reminder::collection::{Listing, RemindersMap};
use crate::reminder::model::{Changes, Record, ReminderData, ReminderUpdate};
use crate::reminder::schedule::{compute_next_fire, next_fire_at, Cadence};
use crate::reminder::timestamp::{Moment, Timestamp};
use vstd::prelude::*;

verus! {

/// The model of a notice.
pub struct NoticeView {
    pub user_id: u64,
    pub channel_id: u64,
    pub key: Seq<char>,
    pub name: Seq<char>,
    pub text: Seq<char>,
    pub next_reminder: Seq<char>,
}

/// A reminder that is due: where its message goes, what it says, and the
/// text of the fire that follows the one that is due.
#[derive(Debug, PartialEq, Eq)]
pub struct Notice {
    /// The owner of the reminder, who is mentioned in the message.
    pub user_id: u64,
    /// The channel that the message goes to.
    pub channel_id: u64,
    /// The key of the reminder in the collection of its owner.
    pub key: String,
    /// The name that the record of the reminder bears.
    pub name: String,
    /// The body of the message.
    pub text: String,
    /// The fire after the one that is due, as text.
    pub next_reminder: String,
}

impl View for Notice {
    type V = NoticeView;

    open spec fn view(&self) -> NoticeView {
        NoticeView {
            user_id: self.user_id,
            channel_id: self.channel_id,
            key: self.key@,
            name: self.name@,
            text: self.text@,
            next_reminder: self.next_reminder@,
        }
    }
}

impl Clone for Notice {
    fn clone(&self) -> (copy: Self)
        ensures
            copy == *self,
    {
        Notice {
            user_id: self.user_id,
            channel_id: self.channel_id,
            key: self.key.clone(),
            name: self.name.clone(),
            text: self.text.clone(),
            next_reminder: self.next_reminder.clone(),
        }
    }
}

/// The model of a write-back.
pub struct RescheduleView {
    pub user_id: u64,
    pub key: Seq<char>,
    pub next_reminder: Seq<char>,
    pub before_remind: Seq<char>,
}

impl RescheduleView {
    /// The partial update that this write-back asks for: the next fire and
    /// the last fire change, nothing else.
    pub open spec fn changes(self) -> Changes {
        Changes {
            next_reminder: Some(self.next_reminder),
            before_remind: Some(self.before_remind),
            ..Changes::none()
        }
    }
}

/// What is to be written back after a delivery: the reminder under `key` in
/// the collection of `user_id` gets a new next fire and a new last fire.
#[derive(Debug, PartialEq, Eq)]
pub struct Reschedule {
    pub user_id: u64,
    pub key: String,
    pub next_reminder: String,
    pub before_remind: String,
}

impl View for Reschedule {
    type V = RescheduleView;

    open spec fn view(&self) -> RescheduleView {
        RescheduleView {
            user_id: self.user_id,
            key: self.key@,
            next_reminder: self.next_reminder@,
            before_remind: self.before_remind@,
        }
    }
}

impl Reschedule {
    /// The partial update that this write-back asks for.
    pub fn as_update(&self) -> (update: ReminderUpdate<'_>)
        ensures
            update@ == self@.changes(),
    {
        ReminderUpdate {
            name: None,
            channel_id: None,
            text: None,
            is_per_day: None,
            days: None,
            time: None,
            week: None,
            next_reminder: Some(self.next_reminder.as_str()),
            before_remind: Some(self.before_remind.as_str()),
        }
    }
}

/// The model of an event.
pub enum EventView {
    Tick(Moment),
    Collection(Listing),
    Unreadable,
    Exhausted,
    Unavailable,
    Sent(bool),
    Saved,
}

/// What happened outside the poller.
#[derive(Debug)]
pub enum Event {
    /// The timer fired, at this time.
    Tick(Timestamp),
    /// The store handed over the collection of the next owner.
    Collection(RemindersMap),
    /// The store could not read the collection of the next owner.
    Unreadable,
    /// The store has no further collection.
    Exhausted,
    /// The store could not say which collections it holds.
    Unavailable,
    /// The notifier returned: the message was delivered, or it was not.
    Sent(bool),
    /// The store returned from a write-back, whether or not it succeeded.
    Saved,
}

impl View for Event {
    type V = EventView;

    open spec fn view(&self) -> EventView {
        match self {
            Event::Tick(now) => EventView::Tick(now@),
            Event::Collection(reminders) => EventView::Collection(reminders.listing()),
            Event::Unreadable => EventView::Unreadable,
            Event::Exhausted => EventView::Exhausted,
            Event::Unavailable => EventView::Unavailable,
            Event::Sent(delivered) => EventView::Sent(*delivered),
            Event::Saved => EventView::Saved,
        }
    }
}

/// The model of an action.
pub enum ActionView {
    Rest,
    Load,
    Send(NoticeView),
    Save(RescheduleView),
}

/// What is to be done next.
#[derive(Debug, PartialEq, Eq)]
pub enum Action {
    /// Nothing, until something else happens.
    Rest,
    /// Read the collection of the next owner and hand it over, or say that
    /// it cannot be read, that there is none, or that the store cannot say.
    Load,
    /// Deliver this notice and say whether it was delivered.
    Send(Notice),
    /// Write this back into the collection of the owner and say when it is
    /// done.
    Save(Reschedule),
}

impl View for Action {
    type V = ActionView;

    open spec fn view(&self) -> ActionView {
        match self {
            Action::Rest => ActionView::Rest,
            Action::Load => ActionView::Load,
            Action::Send(notice) => ActionView::Send(notice@),
            Action::Save(reschedule) => ActionView::Save(reschedule@),
        }
    }
}

/// The model of the poller: idle, or at one of the three stages of a scan.
/// During a scan, `now` is the time of the tick that started it and `stamp`
/// that time as text. In `Sending` and `Saving`, `notice` is the notice at
/// hand and `queue` holds the notices of the same collection that follow it.
pub enum TaskView {
    /// Between two scans.
    Idle,
    /// In a scan, waiting for the next collection.
    Loading { now: Moment, stamp: Seq<char> },
    /// In a scan, waiting for the notifier to return from sending `notice`.
    Sending { now: Moment, stamp: Seq<char>, notice: NoticeView, queue: Seq<NoticeView> },
    /// In a scan, waiting for the store to return from writing back.
    Saving { now: Moment, stamp: Seq<char>, notice: NoticeView, queue: Seq<NoticeView> },
}

impl TaskView {
    /// The poller is in a scan, at whichever stage.
    pub open spec fn scanning(self) -> bool {
        !(self is Idle)
    }
}

/// The notice for the reminder `record` under `key` at the time `now`, if the
/// reminder is due and can be handled.
///
/// A reminder is due when its next fire is `now` or earlier. It can be
/// handled when its next fire can be read, its cadence is complete, and the
/// fire after the next has a faithful text, so that the reminder can be read
/// again once it is written back.
pub open spec fn notice_for(key: Seq<char>, record: Record, now: Moment) -> Option<NoticeView> {
    match (
        Moment::reading(record.next_reminder),
        Cadence::of_parts(record.is_per_day, record.days, record.week),
    ) {
        (Some(due), Some(cadence)) => if due.at_or_before(now) && due.days + cadence.period()
            <= i32::MAX {
            match next_fire_at(cadence, due).faithful_text() {
                Some(next) => Some(
                    NoticeView {
                        user_id: record.user_id,
                        channel_id: record.channel_id,
                        key,
                        name: record.name,
                        text: record.text,
                        next_reminder: next,
                    },
                ),
                None => None,
            }
        } else {
            None
        },
        _ => None,
    }
}

/// The notices for the reminders of a collection at the time `now`, in the
/// order of the collection.
pub open spec fn due_notices(l: Listing, now: Moment) -> Seq<NoticeView>
    decreases l.len(),
{
    if l.len() == 0 {
        Seq::empty()
    } else {
        match notice_for(l[0].0, l[0].1, now) {
            Some(notice) => seq![notice] + due_notices(l.drop_first(), now),
            None => due_notices(l.drop_first(), now),
        }
    }
}

/// What to write back after `notice` was delivered in a scan with the time
/// text `stamp`.
pub open spec fn reschedule_of(notice: NoticeView, stamp: Seq<char>) -> RescheduleView {
    RescheduleView {
        user_id: notice.user_id,
        key: notice.key,
        next_reminder: notice.next_reminder,
        before_remind: stamp,
    }
}

/// The state and the action when `queue` holds the notices that are still to
/// be sent: the first is sent, or the next collection is asked for.
pub open spec fn dispatch(now: Moment, stamp: Seq<char>, queue: Seq<NoticeView>) -> (
    TaskView,
    ActionView,
) {
    if queue.len() == 0 {
        (TaskView::Loading { now, stamp }, ActionView::Load)
    } else {
        (
            TaskView::Sending { now, stamp, notice: queue[0], queue: queue.drop_first() },
            ActionView::Send(queue[0]),
        )
    }
}

/// The state and the action when the poller waits for a collection and is
/// handed the notices of one, in their order. A poller that does not wait for
/// a collection takes none.
pub open spec fn step_notices(pre: TaskView, notices: Seq<NoticeView>) -> (TaskView, ActionView) {
    match pre {
        TaskView::Loading { now, stamp } => dispatch(now, stamp, notices),
        _ => (pre, ActionView::Rest),
    }
}

/// The transitions of the poller: the state after `event` and the action
/// that answers it.
pub open spec fn step(pre: TaskView, event: EventView) -> (TaskView, ActionView) {
    match (pre, event) {
        (TaskView::Idle, EventView::Tick(now)) => match now.text() {
            Some(stamp) => (TaskView::Loading { now, stamp }, ActionView::Load),
            None => (TaskView::Idle, ActionView::Rest),
        },
        (TaskView::Loading { now, stamp }, EventView::Collection(l)) => step_notices(
            pre,
            due_notices(l, now),
        ),
        (TaskView::Loading { .. }, EventView::Unreadable) => (pre, ActionView::Load),
        (TaskView::Loading { .. }, EventView::Exhausted) => (TaskView::Idle, ActionView::Rest),
        (TaskView::Loading { .. }, EventView::Unavailable) => (TaskView::Idle, ActionView::Rest),
        (TaskView::Sending { now, stamp, notice, queue }, EventView::Sent(delivered)) => {
            if delivered {
                (
                    TaskView::Saving { now, stamp, notice, queue },
                    ActionView::Save(reschedule_of(notice, stamp)),
                )
            } else {
                dispatch(now, stamp, queue)
            }
        },
        (TaskView::Saving { now, stamp, notice, queue }, EventView::Saved) => dispatch(
            now,
            stamp,
            queue,
        ),
        _ => (pre, ActionView::Rest),
    }
}

/// Where the poller stands. During a scan, `rest` holds the notices that
/// come after `notice`, the last of them first.
#[derive(Debug)]
enum Stage {
    Idle,
    Loading { now: Timestamp, stamp: String },
    Sending { now: Timestamp, stamp: String, notice: Notice, rest: Vec<Notice> },
    Saving { now: Timestamp, stamp: String, notice: Notice, rest: Vec<Notice> },
}

/// The poller.
#[derive(Debug)]
pub struct Task {
    stage: Stage,
}

/// The models of the notices on a stack, from its top down.
pub open spec fn stack_queue(stack: Seq<Notice>) -> Seq<NoticeView> {
    Seq::new(stack.len(), |i: int| stack[stack.len() - 1 - i]@)
}

impl View for Task {
    type V = TaskView;

    closed spec fn view(&self) -> TaskView {
        match self.stage {
            Stage::Idle => TaskView::Idle,
            Stage::Loading { now, stamp } => TaskView::Loading { now: now@, stamp: stamp@ },
            Stage::Sending { now, stamp, notice, rest } => TaskView::Sending {
                now: now@,
                stamp: stamp@,
                notice: notice@,
                queue: stack_queue(rest@),
            },
            Stage::Saving { now, stamp, notice, rest } => TaskView::Saving {
                now: now@,
                stamp: stamp@,
                notice: notice@,
                queue: stack_queue(rest@),
            },
        }
    }
}

impl Task {
    /// The poller between two scans.
    pub fn new() -> (task: Task)
        ensures
            task@ == TaskView::Idle,
    {
        Task { stage: Stage::Idle }
    }

    /// The poller at the start of a scan: it waits for the first collection.
    /// `now` is the time of the scan and `stamp` the text that is written
    /// into each reminder that the scan delivers, as the time of its last
    /// fire.
    pub fn scanning_at(now: Timestamp, stamp: String) -> (task: Task)
        ensures
            task@ == (TaskView::Loading { now: now@, stamp: stamp@ }),
    {
        Task { stage: Stage::Loading { now, stamp } }
    }

    /// Hands the poller the notices of a collection, in their order. A
    /// poller that waits for a collection has the first of them sent, or asks
    /// for the next collection where there is none; any other poller stays
    /// as it is.
    pub fn take_notices(self, notices: Vec<Notice>) -> (r: (Task, Action))
        ensures
            (r.0@, r.1@) == step_notices(self@, notices@.map_values(|n: Notice| n@)),
    {
        match self.stage {
            Stage::Loading { now, stamp } => {
                let mut rest = notices;
                let mut stack: Vec<Notice> = Vec::new();
                let ghost all = rest@;
                while rest.len() > 0
                    invariant
                        rest@.len() + stack@.len() == all.len(),
                        rest@ == all.take(rest@.len() as int),
                        forall|j: int|
                            0 <= j < stack@.len() ==> #[trigger] stack@[j] == all[all.len() - 1
                                - j],
                    decreases rest.len(),
                {
                    match rest.pop() {
                        Some(notice) => {
                            stack.push(notice);
                        },
                        None => {},
                    }
                }
                assert(stack_queue(stack@) =~= all.map_values(|n: Notice| n@));
                Self::dispatch(now, stamp, stack)
            },
            stage => (Task { stage }, Action::Rest),
        }
    }

    /// Whether the poller is between two scans.
    pub fn is_idle(&self) -> (b: bool)
        ensures
            b == (self@ is Idle),
    {
        match &self.stage {
            Stage::Idle => true,
            _ => false,
        }
    }

    /// Whether the poller is in a scan.
    pub fn is_scanning(&self) -> (b: bool)
        ensures
            b == self@.scanning(),
    {
        !self.is_idle()
    }

    /// The notice for the reminder `data` under `key` at the time `now`, if
    /// the reminder is due and can be handled.
    pub fn notice(key: &str, data: &ReminderData, now: &Timestamp) -> (r: Option<Notice>)
        ensures
            r is Some <==> notice_for(key@, data@, now@) is Some,
            r matches Some(notice) ==> notice_for(key@, data@, now@) == Some(notice@),
    {
        let due = match Timestamp::from_text(data.next_reminder.as_str()) {
            Some(due) => due,
            None => {
                return None;
            },
        };
        let cadence = match Cadence::from_parts(data.is_per_day, data.days, data.week) {
            Ok(cadence) => cadence,
            Err(_) => {
                return None;
            },
        };
        if !due.at_or_before(now) {
            return None;
        }
        let next = match compute_next_fire(&cadence, &due) {
            Some(next) => next,
            None => {
                return None;
            },
        };
        match next.to_faithful_text() {
            Some(next_reminder) => Some(
                Notice {
                    user_id: data.user_id,
                    channel_id: data.channel_id,
                    key: key.to_owned(),
                    name: data.name.clone(),
                    text: data.text.clone(),
                    next_reminder,
                },
            ),
            None => None,
        }
    }

    /// The notices for the reminders of a collection at the time `now`, as a
    /// stack: the notice for the first reminder on top.
    fn stack_notices(reminders: &RemindersMap, now: &Timestamp) -> (stack: Vec<Notice>)
        ensures
            stack_queue(stack@) == due_notices(reminders.listing(), now@),
    {
        let mut stack: Vec<Notice> = Vec::new();
        let mut i: usize = reminders.len();
        let ghost l = reminders.listing();
        while i > 0
            invariant
                l == reminders.listing(),
                i <= l.len(),
                stack_queue(stack@) == due_notices(l.skip(i as int), now@),
            decreases i,
        {
            i -= 1;
            assert(l.skip(i as int).drop_first() =~= l.skip(i as int + 1));
            match Self::notice(reminders.key_at(i).as_str(), reminders.record_at(i), now) {
                Some(notice) => {
                    stack.push(notice);
                },
                None => {},
            }
        }
        assert(l.skip(0) =~= l);
        stack
    }

    /// The state and the action when `stack` holds the notices that are
    /// still to be sent.
    fn dispatch(now: Timestamp, stamp: String, stack: Vec<Notice>) -> (r: (Task, Action))
        ensures
            (r.0@, r.1@) == dispatch(now@, stamp@, stack_queue(stack@)),
    {
        let mut stack = stack;
        let ghost before = stack@;
        match stack.pop() {
            Some(notice) => {
                assert(stack_queue(before).drop_first() =~= stack_queue(stack@));
                let copy = notice.clone();
                (Task { stage: Stage::Sending { now, stamp, notice, rest: stack } }, Action::Send(copy))
            },
            None => {
                (Task { stage: Stage::Loading { now, stamp } }, Action::Load)
            },
        }
    }

    /// Takes an event and answers with the action to perform; the poller
    /// that is returned is the poller after the event.
    pub fn run(self, event: Event) -> (r: (Task, Action))
        ensures
            (r.0@, r.1@) == step(self@, event@),
    {
        match (self.stage, event) {
            (Stage::Idle, Event::Tick(now)) => match now.to_text() {
                Some(stamp) => (Self::scanning_at(now, stamp), Action::Load),
                None => (Task { stage: Stage::Idle }, Action::Rest),
            },
            (Stage::Loading { now, stamp }, Event::Collection(reminders)) => {
                let stack = Self::stack_notices(&reminders, &now);
                Self::dispatch(now, stamp, stack)
            },
            (Stage::Loading { now, stamp }, Event::Unreadable) => (
                Task { stage: Stage::Loading { now, stamp } },
                Action::Load,
            ),
            (Stage::Loading { .. }, Event::Exhausted) => (Task { stage: Stage::Idle }, Action::Rest),
            (Stage::Loading { .. }, Event::Unavailable) => (
                Task { stage: Stage::Idle },
                Action::Rest,
            ),
            (Stage::Sending { now, stamp, notice, rest }, Event::Sent(delivered)) => {
                if delivered {
                    let reschedule = Reschedule {
                        user_id: notice.user_id,
                        key: notice.key.clone(),
                        next_reminder: notice.next_reminder.clone(),
                        before_remind: stamp.clone(),
                    };
                    (
                        Task { stage: Stage::Saving { now, stamp, notice, rest } },
                        Action::Save(reschedule),
                    )
                } else {
                    Self::dispatch(now, stamp, rest)
                }
            },
            (Stage::Saving { now, stamp, notice, rest }, Event::Saved) => Self::dispatch(
                now,
                stamp,
                rest,
            ),
            (stage, _) => (Task { stage }, Action::Rest),
        }
    }
}

/// The notices of a collection are the notices of its reminders: each
/// reminder that has a notice is in them, and each of them is the notice of
/// a reminder of the collection, which is therefore due.
pub proof fn lemma_due_notices(l: Listing, now: Moment)
    ensures
        forall|i: int|
            0 <= i < l.len() && notice_for(l[i].0, l[i].1, now) is Some ==> due_notices(
                l,
                now,
            ).contains(#[trigger] notice_for(l[i].0, l[i].1, now)->0),
        forall|k: int|
            0 <= k < due_notices(l, now).len() ==> exists|i: int|
                0 <= i < l.len() && notice_for(l[i].0, l[i].1, now) == Some(
                    #[trigger] due_notices(l, now)[k],
                ),
    decreases l.len(),
{
    if l.len() > 0 {
        let tail = l.drop_first();
        let all = due_notices(l, now);
        let rest = due_notices(tail, now);
        lemma_due_notices(tail, now);
        let shift: int = if notice_for(l[0].0, l[0].1, now) is Some {
            1
        } else {
            0
        };
        assert forall|k: int| 0 <= k < rest.len() implies rest[k] == all[k + shift] by {}
        assert forall|i: int|
            0 <= i < l.len() && notice_for(l[i].0, l[i].1, now) is Some implies all.contains(
            #[trigger] notice_for(l[i].0, l[i].1, now)->0,
        ) by {
            let notice = notice_for(l[i].0, l[i].1, now)->0;
            if i == 0 {
                assert(all[0] == notice);
            } else {
                assert(tail[i - 1] == l[i]);
                let k = choose|k: int| 0 <= k < rest.len() && rest[k] == notice;
                assert(all[k + shift] == notice);
            }
        }
        assert forall|k: int| 0 <= k < all.len() implies exists|i: int|
            0 <= i < l.len() && notice_for(l[i].0, l[i].1, now) == Some(#[trigger] all[k]) by {
            if shift == 0 || k > 0 {
                let i = choose|i: int|
                    0 <= i < tail.len() && notice_for(tail[i].0, tail[i].1, now) == Some(
                        rest[k - shift],
                    );
                assert(tail[i] == l[i + 1]);
            }
        }
    }
}

/// A reminder whose next fire lies after `now`, or cannot be read, has no
/// notice: it is left as it is.
pub proof fn lemma_not_due(key: Seq<char>, record: Record, now: Moment)
    requires
        Moment::reading(record.next_reminder) matches Some(due) ==> !due.at_or_before(now),
    ensures
        notice_for(key, record, now) is None,
{
}

/// Scans do not overlap: a tick that comes during a scan changes nothing and
/// asks for nothing.
pub proof fn lemma_tick_during_scan(pre: TaskView, now: Moment)
    requires
        pre.scanning(),
    ensures
        step(pre, EventView::Tick(now)) == (pre, ActionView::Rest),
{
}

/// A collection that cannot be read is passed over: the poller asks for the
/// next one and is otherwise as it was, so that the collections that follow
/// are handled as if the unreadable one were not there.
pub proof fn lemma_unreadable_collection_is_passed_over(
    now: Moment,
    stamp: Seq<char>,
    event: EventView,
)
    ensures
        step(TaskView::Loading { now, stamp }, EventView::Unreadable) == (
            TaskView::Loading { now, stamp },
            ActionView::Load,
        ),
        step(step(TaskView::Loading { now, stamp }, EventView::Unreadable).0, event) == step(
            TaskView::Loading { now, stamp },
            event,
        ),
{
}

/// A store that cannot say which collections it holds ends the scan: the
/// poller is idle until the next tick.
pub proof fn lemma_unavailable_store_ends_scan(now: Moment, stamp: Seq<char>)
    ensures
        step(TaskView::Loading { now, stamp }, EventView::Unavailable) == (
            TaskView::Idle,
            ActionView::Rest,
        ),
{
}

/// A scan ends where the store has no further collection: the poller is
/// idle again, and the next tick that can be written starts a scan at its
/// own time.
pub proof fn lemma_scan_ends(now: Moment, stamp: Seq<char>, later: Moment)
    requires
        later.text() is Some,
    ensures
        step(TaskView::Loading { now, stamp }, EventView::Exhausted).0 == TaskView::Idle,
        step(TaskView::Idle, EventView::Tick(later)) == (
            TaskView::Loading { now: later, stamp: later.text()->0 },
            ActionView::Load,
        ),
{
}

/// A write-back is asked for only in answer to a delivery that succeeded,
/// and it is the write-back of the notice that was delivered: one for each
/// delivered reminder, after the outcome of its delivery is known.
pub proof fn lemma_write_back_follows_delivery(pre: TaskView, event: EventView)
    requires
        step(pre, event).1 is Save,
    ensures
        event == EventView::Sent(true),
        pre matches TaskView::Sending { now, stamp, notice, queue } && step(pre, event) == (
            TaskView::Saving { now, stamp, notice, queue },
            ActionView::Save(reschedule_of(notice, stamp)),
        ),
{
}

/// A message is sent only for a notice that the poller was handed: the
/// first notice of a collection in answer to the collection, and each later
/// one when the notice before it is done with.
pub proof fn lemma_send_follows_notice(pre: TaskView, event: EventView)
    requires
        step(pre, event).1 is Send,
    ensures
        match pre {
            TaskView::Idle => false,
            TaskView::Loading { now, .. } => event matches EventView::Collection(l) && due_notices(
                l,
                now,
            ).len() > 0 && step(pre, event).1 == ActionView::Send(due_notices(l, now)[0]),
            TaskView::Sending { queue, .. } => event == EventView::Sent(false) && queue.len() > 0
                && step(pre, event).1 == ActionView::Send(queue[0]),
            TaskView::Saving { queue, .. } => event == EventView::Saved && queue.len() > 0 && step(
                pre,
                event,
            ).1 == ActionView::Send(queue[0]),
        },
{
}

/// What a delivery does to a reminder that is due at `now`.
///
/// After a message that was delivered, the poller asks for one write-back.
/// Applied to the record, it moves the next fire forward by one period of the
/// cadence, sets the last fire to `now`, and leaves every other field; the
/// new next fire can be read again. After a message that was not delivered,
/// the poller asks for no write-back: the record stays as it is and is due
/// again at the next tick.
pub proof fn lemma_delivery_outcome(
    key: Seq<char>,
    record: Record,
    now: Moment,
    queue: Seq<NoticeView>,
)
    requires
        notice_for(key, record, now) is Some,
        now.text() is Some,
    ensures
        ({
            let notice = notice_for(key, record, now)->0;
            let stamp = now.text()->0;
            let pre = TaskView::Sending { now, stamp, notice, queue };
            let due = Moment::reading(record.next_reminder)->0;
            let cadence = Cadence::of_parts(record.is_per_day, record.days, record.week)->0;
            &&& Moment::reading(record.next_reminder) is Some
            &&& Cadence::of_parts(record.is_per_day, record.days, record.week) is Some
            &&& due.at_or_before(now)
            &&& next_fire_at(cadence, due) == due.plus_days(cadence.period())
            &&& next_fire_at(cadence, due).text() is Some
            &&& step(pre, EventView::Sent(true)).0 == (TaskView::Saving {
                now,
                stamp,
                notice,
                queue,
            })
            &&& step(pre, EventView::Sent(true)).1 matches ActionView::Save(write)
            &&& write.user_id == record.user_id
            &&& write.key == key
            &&& record.updated(write.changes()) == (Record {
                next_reminder: next_fire_at(cadence, due).text()->0,
                before_remind: stamp,
                ..record
            })
            &&& Moment::reading(record.updated(write.changes()).next_reminder) == Some(
                next_fire_at(cadence, due),
            )
            &&& !(step(pre, EventView::Sent(false)).1 is Save)
            &&& step(pre, EventView::Sent(false)) == dispatch(now, stamp, queue)
        }),
{
}

/// A scan over a reminder that is due, from the collection to the
/// write-back.
///
/// Let the next fire of the record read as `due`, at or before the time of
/// the scan, let its cadence be complete, and let the calendar be able to
/// write the fire one period after `due` and to read it back. Then the
/// poller has a message sent for the reminder. After the delivery it asks
/// for a write-back that moves the next fire to exactly one period after
/// `due` (the interval of a daily reminder, seven days for a weekly one,
/// whatever its interval field holds, and then on the same weekday), sets
/// the last fire to the time of the tick, and leaves every other field.
/// After a failed delivery it asks for none.
pub proof fn lemma_due_reminder_rolls_forward(
    key: Seq<char>,
    record: Record,
    now: Moment,
    due: Moment,
    cadence: Cadence,
)
    requires
        Moment::reading(record.next_reminder) == Some(due),
        Cadence::of_parts(record.is_per_day, record.days, record.week) == Some(cadence),
        due.at_or_before(now),
        now.text() is Some,
        due.days + cadence.period() <= i32::MAX,
        due.plus_days(cadence.period()).faithful_text() is Some,
    ensures
        ({
            let stamp = now.text()->0;
            let next = due.plus_days(cadence.period());
            let sending = step(
                TaskView::Loading { now, stamp },
                EventView::Collection(seq![(key, record)]),
            );
            let saving = step(sending.0, EventView::Sent(true));
            &&& record.is_per_day ==> cadence.period() == record.days->0
            &&& !record.is_per_day ==> cadence.period() == 7 && next.weekday() == due.weekday()
            &&& next.clock() == due.clock() && next.offset == due.offset
            &&& sending.1 matches ActionView::Send(notice)
            &&& notice.key == key && notice.text == record.text && notice.channel_id
                == record.channel_id
            &&& saving.1 matches ActionView::Save(write)
            &&& write.key == key && write.user_id == record.user_id
            &&& Moment::reading(record.updated(write.changes()).next_reminder) == Some(next)
            &&& record.updated(write.changes()).before_remind == stamp
            &&& record.updated(write.changes()) == (Record {
                next_reminder: next.text()->0,
                before_remind: stamp,
                ..record
            })
            &&& step(saving.0, EventView::Saved) == (
                TaskView::Loading { now, stamp },
                ActionView::Load,
            )
            &&& step(sending.0, EventView::Sent(false)) == (
                TaskView::Loading { now, stamp },
                ActionView::Load,
            )
        }),
{
    let l: Listing = seq![(key, record)];
    let notice = notice_for(key, record, now)->0;
    assert(notice_for(key, record, now) is Some);
    assert(due_notices(l, now) =~= seq![notice]) by {
        reveal_with_fuel(due_notices, 2);
        assert(l.drop_first().len() == 0);
    }
    assert(seq![notice].drop_first() =~= Seq::<NoticeView>::empty());
}

} // verus!
