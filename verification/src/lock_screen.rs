//! The lock screen's decisions: what each key does to the password being
//! typed and to the error shown, when to ask the authenticator, and what its
//! answer leads to. Drawing, the keyboard and the authenticator itself are
//! the caller's part: it performs the action a decision returns.
use vstd::prelude::*;

use crate::text::{chars_of, owned, string_of, extend_str};

verus! {

/// The keys the lock screen tells apart.
#[derive(Debug, Clone, Copy, PartialEq, Eq, Structural)]
pub enum LockKey {
    /// Return or the keypad's Enter.
    Enter,
    BackSpace,
    Escape,
    /// Any other key; what it types comes with it.
    Other,
}

/// What the caller does after a decision.
#[derive(Debug, Clone)]
pub enum LockAction {
    /// Nothing.
    Nothing,
    /// Draw the lock surfaces again.
    Redraw,
    /// Ask the authenticator whether this is the user's password.
    Authenticate(String),
    /// Unlock the session and quit.
    Unlock,
}

/// The state of the lock screen.
#[derive(Debug, Clone)]
pub struct LockScreen {
    pub password: String,
    pub error_message: Option<String>,
    pub authenticated: bool,
}

/// The message shown after a wrong password.
pub open spec fn wrong_password_message() -> Seq<char> {
    "Incorrect password"@
}

/// `char::is_control`: the control codes (general category Cc).
pub open spec fn is_control(c: char) -> bool {
    (c as u32) < 0x20 || (0x7f <= (c as u32) && (c as u32) < 0xa0)
}

/// Text that a key may add to the password: not empty and free of control
/// characters.
pub open spec fn is_typed_text(t: Seq<char>) -> bool {
    t.len() > 0 && forall|i: int| 0 <= i < t.len() ==> !is_control(#[trigger] t[i])
}

/// The number of UTF-8 bytes of a character (`char::len_utf8`).
pub open spec fn utf8_width(c: char) -> nat {
    if (c as u32) < 0x80 {
        1
    } else if (c as u32) < 0x800 {
        2
    } else if (c as u32) < 0x10000 {
        3
    } else {
        4
    }
}

/// The number of UTF-8 bytes of a text (`str::len`).
pub open spec fn utf8_len(s: Seq<char>) -> nat
    decreases s.len(),
{
    if s.len() == 0 {
        0
    } else {
        utf8_len(s.drop_last()) + utf8_width(s.last())
    }
}

/// The state after a key, and the action it asks for.
pub open spec fn key_effect(
    before: LockScreen,
    key: LockKey,
    text: Option<Seq<char>>,
    after: LockScreen,
    action: LockAction,
) -> bool {
    &&& after.authenticated == before.authenticated
    &&& match key {
        LockKey::Enter => {
            &&& after.password@ == before.password@
            &&& after.error_message == before.error_message
            &&& if before.password@.len() == 0 {
                action is Nothing
            } else {
                action matches LockAction::Authenticate(p) && p@ == before.password@
            }
        },
        LockKey::BackSpace => {
            &&& after.password@ == (if before.password@.len() == 0 {
                before.password@
            } else {
                before.password@.drop_last()
            })
            &&& after.error_message == before.error_message
            &&& action is Redraw
        },
        LockKey::Escape => {
            &&& after.password@.len() == 0
            &&& after.error_message is None
            &&& action is Redraw
        },
        LockKey::Other => match text {
            Some(t) => if is_typed_text(t) {
                &&& after.password@ == before.password@ + t
                &&& after.error_message is None
                &&& action is Redraw
            } else {
                &&& after.password@ == before.password@
                &&& after.error_message == before.error_message
                &&& action is Nothing
            },
            None => {
                &&& after.password@ == before.password@
                &&& after.error_message == before.error_message
                &&& action is Nothing
            },
        },
    }
}

fn is_control_char(c: char) -> (r: bool)
    ensures
        r == is_control(c),
{
    (c as u32) < 0x20 || (0x7f <= (c as u32) && (c as u32) < 0xa0)
}

impl LockScreen {
    /// The lock screen as it starts: nothing typed, no error.
    pub fn new() -> (r: LockScreen)
        ensures
            r.password@.len() == 0,
            r.error_message is None,
            !r.authenticated,
    {
        LockScreen { password: String::new(), error_message: None, authenticated: false }
    }

    /// What a key does. Enter asks the authenticator about a non-empty
    /// password; BackSpace removes the last character; Escape clears the
    /// password and the error; another key appends what it types when that
    /// is text without control characters, and clears the error.
    pub fn press_key(&mut self, key: LockKey, text: Option<&str>) -> (action: LockAction)
        ensures
            key_effect(
                *old(self),
                key,
                match text {
                    Some(t) => Some(t@),
                    None => None,
                },
                *final(self),
                action,
            ),
    {
        match key {
            LockKey::Enter => {
                if self.password.as_str().unicode_len() == 0 {
                    LockAction::Nothing
                } else {
                    LockAction::Authenticate(self.password.clone())
                }
            },
            LockKey::BackSpace => {
                let mut v = chars_of(self.password.as_str());
                if v.len() > 0 {
                    v.pop();
                }
                self.password = string_of(&v);
                LockAction::Redraw
            },
            LockKey::Escape => {
                self.password = String::new();
                self.error_message = None;
                LockAction::Redraw
            },
            LockKey::Other => match text {
                Some(t) => {
                    let cs = chars_of(t);
                    let mut ok = cs.len() > 0;
                    let mut i: usize = 0;
                    while i < cs.len()
                        invariant
                            i <= cs@.len(),
                            cs@ == t@,
                            ok == (cs@.len() > 0 && forall|k: int| 0 <= k < i ==> !is_control(#[trigger] cs@[k])),
                        decreases cs.len() - i,
                    {
                        if is_control_char(cs[i]) {
                            ok = false;
                        }
                        i = i + 1;
                    }
                    if ok {
                        let mut v = chars_of(self.password.as_str());
                        extend_str(&mut v, t);
                        self.password = string_of(&v);
                        self.error_message = None;
                        LockAction::Redraw
                    } else {
                        LockAction::Nothing
                    }
                },
                None => LockAction::Nothing,
            },
        }
    }

    /// What the authenticator's answer leads to: unlocking, or the error
    /// message with the password cleared.
    pub fn finish_authentication(&mut self, accepted: bool) -> (action: LockAction)
        ensures
            accepted ==> final(self).authenticated && action is Unlock
                && final(self).password@ == old(self).password@
                && final(self).error_message == old(self).error_message,
            !accepted ==> (final(self).authenticated == old(self).authenticated
                && final(self).password@.len() == 0
                && (final(self).error_message matches Some(m) && m@ == wrong_password_message())
                && action is Redraw),
    {
        if accepted {
            self.authenticated = true;
            LockAction::Unlock
        } else {
            self.error_message = Some(owned("Incorrect password"));
            self.password = String::new();
            LockAction::Redraw
        }
    }

    /// The mask drawn for the password: one `*` per byte of its UTF-8 text,
    /// nothing when it is empty.
    pub fn password_mask(&self) -> (r: String)
        ensures
            r@.len() == utf8_len(self.password@),
            forall|i: int| 0 <= i < r@.len() ==> #[trigger] r@[i] == '*',
    {
        let cs = chars_of(self.password.as_str());
        let mut v: Vec<char> = Vec::new();
        let mut i: usize = 0;
        while i < cs.len()
            invariant
                i <= cs@.len(),
                cs@ == self.password@,
                v@.len() == utf8_len(cs@.take(i as int)),
                v@.len() <= 4 * i,
                forall|k: int| 0 <= k < v@.len() ==> #[trigger] v@[k] == '*',
            decreases cs.len() - i,
        {
            proof {
                assert(cs@.take(i + 1).drop_last() =~= cs@.take(i as int));
            }
            let code = cs[i] as u32;
            let width: usize = if code < 0x80 {
                1
            } else if code < 0x800 {
                2
            } else if code < 0x10000 {
                3
            } else {
                4
            };
            let mut k: usize = 0;
            while k < width
                invariant
                    k <= width,
                    width <= 4,
                    v@.len() <= 4 * i + k,
                    forall|j: int| 0 <= j < v@.len() ==> #[trigger] v@[j] == '*',
                    v@.len() == utf8_len(cs@.take(i as int)) + k,
                    i < cs@.len(),
                decreases width - k,
            {
                v.push('*');
                k = k + 1;
            }
            i = i + 1;
        }
        proof {
            assert(cs@.take(cs@.len() as int) =~= cs@);
        }
        string_of(&v)
    }
}

/// Escape always leaves nothing typed and no error.
pub proof fn law_escape_clears(before: LockScreen, after: LockScreen, action: LockAction, text: Option<Seq<char>>)
    requires
        key_effect(before, LockKey::Escape, text, after, action),
    ensures
        after.password@.len() == 0,
        after.error_message is None,
{
}

/// BackSpace takes back a typed character.
pub proof fn law_backspace_undoes_typing(
    s0: LockScreen,
    c: char,
    s1: LockScreen,
    a1: LockAction,
    s2: LockScreen,
    a2: LockAction,
    text: Option<Seq<char>>,
)
    requires
        !is_control(c),
        key_effect(s0, LockKey::Other, Some(seq![c]), s1, a1),
        key_effect(s1, LockKey::BackSpace, text, s2, a2),
    ensures
        s2.password@ == s0.password@,
        s2.error_message is None,
{
    assert(is_typed_text(seq![c]));
    assert((s0.password@ + seq![c]).drop_last() =~= s0.password@);
}

/// Enter with nothing typed does nothing, and the authenticator is only ever
/// asked about what was typed.
pub proof fn law_enter_asks_typed_password(before: LockScreen, after: LockScreen, action: LockAction, text: Option<Seq<char>>)
    requires
        key_effect(before, LockKey::Enter, text, after, action),
    ensures
        before.password@.len() == 0 ==> action is Nothing,
        action matches LockAction::Authenticate(p) ==> p@ == before.password@ && p@.len() > 0,
        after.password@ == before.password@,
{
}

} // verus!
