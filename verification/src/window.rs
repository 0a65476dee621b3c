//! The window procedure's decisions: which reaction a message gets and what
//! it is answered.
use crate::events::MediaEvent;
use crate::overlay::OverlayState;
use crate::pill::{Effect, Env, Pill, Reversal, Timer};
use vstd::prelude::*;

verus! {

/// The timer of the debounce.
pub const TIMER_DEBOUNCE: usize = 1;

/// The window timer that stands in for the animation timer.
pub const ANIM_TIMER_ID: usize = 2;

/// The one-shot timer that gives the frame buffers back.
pub const IDLE_BUFFER_TIMER_ID: usize = 3;

/// A window message.
#[derive(Clone, Copy, Debug, PartialEq, Eq, Structural)]
pub enum Message {
    Create,
    HitTest,
    MouseActivate,
    /// A request for an accessible object: the root element, or another one.
    GetObject { root: bool },
    Paint,
    MediaEvents,
    Toggle,
    Timer(usize),
    DisplayChange,
    DpiChange,
    ForegroundChange,
    AnimationTick,
    Destroy,
    FinalDestroy,
    Other,
}

/// What a message is answered.
#[derive(Clone, Copy, Debug, PartialEq, Eq, Structural)]
pub enum Reply {
    /// Whatever the system's default procedure answers.
    Default,
    /// Handled: zero.
    Handled,
    /// Accepted: one.
    Accepted,
    /// The cursor passes through.
    Transparent,
    /// A click activates nothing.
    NoActivate,
    /// The provider of the accessible name.
    NameProvider,
}

/// Whether a timer is one of the overlay's own.
pub open spec fn own_timer(id: usize) -> bool {
    id == TIMER_DEBOUNCE || id == ANIM_TIMER_ID || id == IDLE_BUFFER_TIMER_ID
}

/// What a message is answered, before or after the state is attached: the
/// pill never takes a click or the focus, and names itself only while it has
/// a state.
pub open spec fn answer(message: Message, attached: bool) -> Reply {
    match message {
        Message::HitTest => Reply::Transparent,
        Message::MouseActivate => Reply::NoActivate,
        Message::GetObject { root } => if root && attached {
            Reply::NameProvider
        } else {
            Reply::Default
        },
        Message::Timer(id) => if own_timer(id) {
            Reply::Handled
        } else {
            Reply::Default
        },
        Message::Create | Message::FinalDestroy | Message::Other => Reply::Default,
        _ => Reply::Handled,
    }
}

/// What a message is answered.
pub fn reply_to(message: Message, attached: bool) -> (r: Reply)
    ensures
        r == answer(message, attached),
{
    match message {
        Message::HitTest => Reply::Transparent,
        Message::MouseActivate => Reply::NoActivate,
        Message::GetObject { root } => if root && attached {
            Reply::NameProvider
        } else {
            Reply::Default
        },
        Message::Timer(id) => if id == TIMER_DEBOUNCE || id == ANIM_TIMER_ID || id == IDLE_BUFFER_TIMER_ID {
            Reply::Handled
        } else {
            Reply::Default
        },
        Message::Create | Message::FinalDestroy | Message::Other => Reply::Default,
        _ => Reply::Handled,
    }
}

/// The pill takes neither the cursor nor the focus, whatever its state.
pub proof fn law_pill_is_passive(attached: bool)
    ensures
        answer(Message::HitTest, attached) == Reply::Transparent,
        answer(Message::MouseActivate, attached) == Reply::NoActivate,
{
}

/// What the glass window answers a message.
pub fn glass_reply(message: Message) -> (r: Reply)
    ensures
        r == (match message {
            Message::HitTest => Reply::Transparent,
            Message::MouseActivate => Reply::NoActivate,
            Message::Create => Reply::Accepted,
            _ => Reply::Default,
        }),
{
    match message {
        Message::HitTest => Reply::Transparent,
        Message::MouseActivate => Reply::NoActivate,
        Message::Create => Reply::Accepted,
        _ => Reply::Default,
    }
}

impl Pill {
    /// After the displays changed: the refresh rate is read anew, and a
    /// visible pill moves.
    pub open spec fn redisplayed(self, env: Env) -> Pill {
        Pill { timer: Timer { period_cache: None, ..self.timer }, ..self }.repositioned(env)
    }

    /// After the window went away: no timer runs, and nothing is named.
    pub open spec fn torn_down(self) -> Pill {
        Pill { pill_name: None, ..self.without_timer() }
    }

    /// After a message. The frame buffers are given back only while nothing
    /// is shown.
    pub open spec fn handled(
        self,
        message: Message,
        batch: Seq<MediaEvent>,
        over: bool,
        reversal: Reversal,
        env: Env,
    ) -> Pill {
        match message {
            Message::MediaEvents => self.received(batch, env),
            Message::Toggle => self.toggled(env),
            Message::Timer(id) => if id == TIMER_DEBOUNCE {
                self.flushed(env)
            } else if id == ANIM_TIMER_ID {
                self.ticked(over, reversal, env)
            } else if id == IDLE_BUFFER_TIMER_ID && self.content is None {
                self.released()
            } else {
                self
            },
            Message::DisplayChange => self.redisplayed(env),
            Message::DpiChange => self.repositioned(env),
            Message::ForegroundChange => self.foreground_changed(env),
            Message::AnimationTick => self.ticked(over, reversal, env),
            Message::FinalDestroy => self.torn_down(),
            _ => self,
        }
    }
}

impl OverlayState {
    /// Reacts to changed displays.
    pub fn on_display_change(&mut self, env: &Env)
        ensures
            final(self)@ == old(self)@.redisplayed(*env),
    {
        self.timer.period_cache = None;
        self.reposition(env);
    }

    /// Reacts to the window going away.
    pub fn tear_down(&mut self)
        ensures
            final(self)@ == old(self)@.torn_down(),
    {
        self.delete_anim_timer();
        self.null_pill_name_cell();
    }

    /// Reacts to a message and answers it. `batch` is what the event queue
    /// held, `over` and `reversal` are read for a tick.
    pub fn handle(
        &mut self,
        message: Message,
        batch: &Vec<MediaEvent>,
        over: bool,
        reversal: Reversal,
        env: &Env,
    ) -> (r: Reply)
        ensures
            r == answer(message, true),
            final(self)@ == old(self)@.handled(message, batch@, over, reversal, *env),
    {
        match message {
            Message::MediaEvents => {
                self.receive_events(batch, env);
            },
            Message::Toggle => {
                self.toggle_enabled(env);
            },
            Message::Timer(id) => {
                if id == TIMER_DEBOUNCE {
                    self.flush_pending(env);
                } else if id == ANIM_TIMER_ID {
                    self.tick(over, reversal, env);
                } else if id == IDLE_BUFFER_TIMER_ID && self.content.is_none() {
                    self.release_idle_buffers();
                }
            },
            Message::DisplayChange => {
                self.on_display_change(env);
            },
            Message::DpiChange => {
                self.reposition(env);
            },
            Message::ForegroundChange => {
                self.on_foreground_change(env);
            },
            Message::AnimationTick => {
                self.tick(over, reversal, env);
            },
            Message::FinalDestroy => {
                self.tear_down();
            },
            _ => {},
        }
        reply_to(message, true)
    }
}

/// Each message gets its own reaction: media events are received, the toggle
/// toggles, the debounce timer flushes, both animation ticks tick, a
/// foreground change is followed, and a display or DPI change moves the pill.
/// A foreign timer and every other message change nothing.
pub proof fn law_messages_get_their_reaction(
    p: Pill,
    batch: Seq<MediaEvent>,
    over: bool,
    reversal: Reversal,
    id: usize,
    root: bool,
    env: Env,
)
    ensures
        p.handled(Message::MediaEvents, batch, over, reversal, env) == p.received(batch, env),
        p.handled(Message::Toggle, batch, over, reversal, env) == p.toggled(env),
        p.handled(Message::Timer(1), batch, over, reversal, env) == p.flushed(env),
        p.handled(Message::Timer(2), batch, over, reversal, env) == p.ticked(over, reversal, env),
        p.handled(Message::AnimationTick, batch, over, reversal, env) == p.ticked(over, reversal, env),
        p.content is None ==> p.handled(Message::Timer(3), batch, over, reversal, env) == p.released(),
        p.content is Some ==> p.handled(Message::Timer(3), batch, over, reversal, env) == p,
        id == 0 || id > 3 ==> p.handled(Message::Timer(id), batch, over, reversal, env) == p,
        p.handled(Message::DpiChange, batch, over, reversal, env) == p.repositioned(env),
        p.handled(Message::ForegroundChange, batch, over, reversal, env) == p.foreground_changed(env),
        p.handled(Message::Create, batch, over, reversal, env) == p,
        p.handled(Message::HitTest, batch, over, reversal, env) == p,
        p.handled(Message::MouseActivate, batch, over, reversal, env) == p,
        p.handled(Message::GetObject { root }, batch, over, reversal, env) == p,
        p.handled(Message::Paint, batch, over, reversal, env) == p,
        p.handled(Message::Destroy, batch, over, reversal, env) == p,
        p.handled(Message::Other, batch, over, reversal, env) == p,
{
}

/// A display change has the refresh rate read anew and moves a visible pill.
/// The end of the window stops the timer and takes the name away. Neither
/// changes anything else.
pub proof fn law_display_change_forgets_the_refresh_rate(
    p: Pill,
    batch: Seq<MediaEvent>,
    over: bool,
    reversal: Reversal,
    env: Env,
)
    ensures
        ({
            let s = p.handled(Message::DisplayChange, batch, over, reversal, env);
            &&& s.timer == (Timer { period_cache: None, ..p.timer })
            &&& s.effects == p.repositioned(env).effects
            &&& s == (Pill { timer: s.timer, effects: s.effects, ..p })
        }),
        ({
            let s = p.handled(Message::FinalDestroy, batch, over, reversal, env);
            &&& s.pill_name is None
            &&& s.timer == (Timer { armed: false, ..p.timer })
            &&& p.timer.armed ==> s.effects == p.effects.push(Effect::DropTimer)
            &&& !p.timer.armed ==> s.effects == p.effects
            &&& s == (Pill { pill_name: None, timer: s.timer, effects: s.effects, ..p })
        }),
{
    reveal(Pill::without_timer);
    reveal(Pill::repositioned);
    reveal(Pill::rendered);
}

/// Every message of the overlay's own is answered as handled, and its three
/// timers are its own; what it does not handle goes to the system. The pill
/// names itself through its root object, once it has a state.
pub proof fn law_answers_tell_what_was_handled(id: usize, attached: bool)
    ensures
        answer(Message::Timer(1), attached) == Reply::Handled,
        answer(Message::Timer(2), attached) == Reply::Handled,
        answer(Message::Timer(3), attached) == Reply::Handled,
        id == 0 || id > 3 ==> answer(Message::Timer(id), attached) == Reply::Default,
        answer(Message::GetObject { root: true }, true) == Reply::NameProvider,
        answer(Message::GetObject { root: true }, false) == Reply::Default,
        answer(Message::GetObject { root: false }, attached) == Reply::Default,
        answer(Message::Paint, attached) == Reply::Handled,
        answer(Message::MediaEvents, attached) == Reply::Handled,
        answer(Message::Toggle, attached) == Reply::Handled,
        answer(Message::DisplayChange, attached) == Reply::Handled,
        answer(Message::DpiChange, attached) == Reply::Handled,
        answer(Message::ForegroundChange, attached) == Reply::Handled,
        answer(Message::AnimationTick, attached) == Reply::Handled,
        answer(Message::Destroy, attached) == Reply::Handled,
        answer(Message::Create, attached) == Reply::Default,
        answer(Message::FinalDestroy, attached) == Reply::Default,
        answer(Message::Other, attached) == Reply::Default,
{
}

} // verus!
