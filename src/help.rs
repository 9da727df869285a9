//! The help screen.
use vstd::prelude::*;
use crate::keyboard::{column_keyboard, column_layout, rows_of, views, Button, ButtonView, Keyboard};
use crate::menu::{back_button, back_view};
use crate::states::{redraws, Effect, HelpState, MainState, Outcome, State};
use crate::user::{same_profile, User};

verus! {

/// What the bot does and how to use it.
pub const HELP_TEXT: &'static str = "
- Бот поможет разсылать сообщения (пока текстовые) по группам пользователей;
- Группа может быть создана двумя способами:
    - Вручную (пока используя assets/subscription.json, в будущем через меню Бота);
    - Или Бота можно добавить в существующую телеграм-группу;
- Пользователи могут получать сообщения будучи участниками телеграм группы или могут подписаться на группу бота;
В последнем случае пользователь будет получать прямые сообщения от Бота не состоя в телеграм-группе.
- Для отправки сообщения используйте /start -> Notice
- Для подписки / отписки на оповещения используйте /start -> Subscribe
";

/// The help screen: its text and a keyboard with only the back button.
pub fn view() -> (r: (String, Keyboard))
    ensures
        r.0@ == HELP_TEXT@,
        rows_of(r.1@) == column_layout(Seq::empty(), back_view()),
{
    let none: Vec<Button> = Vec::new();
    assert(views(none@) =~= Seq::<ButtonView>::empty());
    (String::from_str(HELP_TEXT), column_keyboard(none, back_button()))
}

/// Whether `r` shows the help screen to `user`, coming from `prev`.
pub open spec fn shows_help(r: Outcome, prev: MainState, chat_id: i64, user: User) -> bool {
    &&& r.state matches State::Help(h) && h.prev_state == prev && same_profile(h.user, user)
    &&& r.effects@.len() == 1
    &&& redraws(r.effects@[0], chat_id, HELP_TEXT@, Some(column_layout(Seq::empty(), back_view())))
    &&& r.failure is None
}

/// Shows the help screen to `user`, coming from `prev`.
pub fn enter(prev: MainState, chat_id: i64, user: &User) -> (r: Outcome)
    ensures
        shows_help(r, prev, chat_id, *user),
{
    let (text, keyboard) = view();
    let mut effects = Vec::new();
    effects.push(Effect::Redraw { chat_id, text, keyboard: Some(keyboard) });
    Outcome { state: State::Help(HelpState { prev_state: prev, user: user.profile() }), effects, failure: None }
}

} // verus!
