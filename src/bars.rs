use crate::common::{modal_name, LineCol, Modal};
use crate::lines::push_char;
use vstd::prelude::*;
use vstd::string::*;

verus! {

pub const INFO_BAR_Y_LOCATION: u16 = 1;

pub const NOTIFICATION_BAR_Y_LOCATION: u16 = 0;

pub const INFO_BAR_LINEWIDTH_INDICATOR_X_LOCATION_NEGATIVE: usize = 1;

pub const INFO_BAR_MODAL_INDICATOR_X_LOCATION: usize = 1;

pub const NOTIFICATION_BAR_TEXT_X_LOCATION: u16 = 2;

/// The most messages that wait for the notification bar.
pub const NOTIFICATION_CAPACITY: usize = 10;

/// The decimal digit for `d`.
pub open spec fn digit_of(d: nat) -> char {
    if d == 0 {
        '0'
    } else if d == 1 {
        '1'
    } else if d == 2 {
        '2'
    } else if d == 3 {
        '3'
    } else if d == 4 {
        '4'
    } else if d == 5 {
        '5'
    } else if d == 6 {
        '6'
    } else if d == 7 {
        '7'
    } else if d == 8 {
        '8'
    } else {
        '9'
    }
}

/// The decimal digits of `n`, most significant first, without leading zeros.
pub open spec fn decimal(n: nat) -> Seq<char>
    decreases n,
{
    if n < 10 {
        seq![digit_of(n)]
    } else {
        decimal(n / 10).push(digit_of(n % 10))
    }
}

/// `n` spaces.
pub open spec fn spaces(n: nat) -> Seq<char> {
    Seq::new(n, |i: int| ' ')
}

/// The text of the info bar: the mode name, padding, the 1-based line and the column
/// as `line:col`, and one space, filling `term_width` where it is wide enough.
pub open spec fn info_bar(term_width: nat, mode: Modal, pos: LineCol) -> Seq<char> {
    let m = modal_name(mode);
    let p = decimal((pos.line + 1) as nat) + seq![':'] + decimal(pos.col as nat);
    let used = INFO_BAR_MODAL_INDICATOR_X_LOCATION + m.len() + p.len()
        + INFO_BAR_LINEWIDTH_INDICATOR_X_LOCATION_NEGATIVE;
    let middle = if term_width >= used {
        (term_width - used) as nat
    } else {
        0
    };
    m + spaces(middle) + p + spaces(INFO_BAR_LINEWIDTH_INDICATOR_X_LOCATION_NEGATIVE as nat)
}

fn digit_char(d: usize) -> (c: char)
    requires
        d < 10,
    ensures
        c == digit_of(d as nat),
{
    if d == 0 {
        '0'
    } else if d == 1 {
        '1'
    } else if d == 2 {
        '2'
    } else if d == 3 {
        '3'
    } else if d == 4 {
        '4'
    } else if d == 5 {
        '5'
    } else if d == 6 {
        '6'
    } else if d == 7 {
        '7'
    } else if d == 8 {
        '8'
    } else {
        '9'
    }
}

/// `n` written in decimal.
pub fn to_decimal(n: usize) -> (r: String)
    ensures
        r@ == decimal(n as nat),
    decreases n,
{
    if n < 10 {
        let mut s = String::new();
        push_char(&mut s, digit_char(n));
        assert(s@ =~= decimal(n as nat));
        s
    } else {
        let mut s = to_decimal(n / 10);
        push_char(&mut s, digit_char(n % 10));
        s
    }
}

/// Appends `n` spaces to `s`.
fn push_spaces(s: &mut String, n: usize)
    ensures
        final(s)@ == old(s)@ + spaces(n as nat),
{
    let mut i: usize = 0;
    while i < n
        invariant
            i <= n,
            s@ =~= old(s)@ + spaces(i as nat),
        decreases n - i,
    {
        push_char(s, ' ');
        i += 1;
        assert(s@ =~= old(s)@ + spaces(i as nat));
    }
}

/// The text of the info bar for a screen `term_width` cells wide.
pub fn get_info_bar_content(term_width: usize, mode: &Modal, pos: LineCol) -> (r: String)
    requires
        pos.line < usize::MAX,
    ensures
        r@ == info_bar(term_width as nat, *mode, pos),
{
    let modal_string = mode.name();
    let mut pos_string = to_decimal(pos.line + 1);
    push_char(&mut pos_string, ':');
    let col_string = to_decimal(pos.col);
    pos_string.append(col_string.as_str());
    let ml = modal_string.unicode_len();
    let pl = pos_string.as_str().unicode_len();
    let middle = if ml <= term_width && pl <= term_width - ml && 2 <= term_width - ml - pl {
        term_width - ml - pl - 2
    } else {
        0
    };
    let mut out = String::from_str(modal_string);
    push_spaces(&mut out, middle);
    out.append(pos_string.as_str());
    push_spaces(&mut out, INFO_BAR_LINEWIDTH_INDICATOR_X_LOCATION_NEGATIVE);
    assert(pos_string@ =~= decimal((pos.line + 1) as nat) + seq![':'] + decimal(pos.col as nat));
    out
}

/// Messages waiting for the notification bar, oldest first.
#[derive(Debug)]
pub struct DebugMessages {
    messages: Vec<String>,
}

impl View for DebugMessages {
    type V = Seq<Seq<char>>;

    closed spec fn view(&self) -> Seq<Seq<char>> {
        Seq::new(self.messages@.len(), |i: int| self.messages@[i]@)
    }
}

impl DebugMessages {
    pub fn new() -> (r: DebugMessages)
        ensures
            r@ == Seq::<Seq<char>>::empty(),
    {
        let r = DebugMessages { messages: Vec::new() };
        assert(r@ =~= Seq::<Seq<char>>::empty());
        r
    }

    /// Adds a message; beyond the capacity the oldest one goes.
    pub fn push(&mut self, message: String)
        ensures
            old(self)@.len() < NOTIFICATION_CAPACITY ==> final(self)@ == old(self)@.push(message@),
            old(self)@.len() >= NOTIFICATION_CAPACITY ==> final(self)@ == old(self)@.push(
                message@,
            ).drop_first(),
    {
        let ghost before = self.messages@;
        self.messages.push(message);
        assert(self@ =~= old(self)@.push(message@));
        if self.messages.len() > NOTIFICATION_CAPACITY {
            let ghost full = self.messages@;
            let _ = self.messages.remove(0);
            assert(self@ =~= old(self)@.push(message@).drop_first());
        }
    }

    /// Takes the oldest message out, if there is one.
    pub fn pop_front(&mut self) -> (r: Option<String>)
        ensures
            old(self)@.len() == 0 ==> r is None && final(self)@ == old(self)@,
            old(self)@.len() > 0 ==> (r matches Some(m) && m@ == old(self)@[0] && final(self)@
                == old(self)@.drop_first()),
    {
        if self.messages.len() == 0 {
            return None;
        }
        let m = self.messages.remove(0);
        assert(self@ =~= old(self)@.drop_first());
        Some(m)
    }

    pub fn len(&self) -> (r: usize)
        ensures
            r == self@.len(),
    {
        self.messages.len()
    }
}

/// The text for the notification bar: the oldest waiting message, which is used up, or an
/// empty text.
pub fn get_notif_bar_content(messages: &mut DebugMessages) -> (r: String)
    ensures
        old(messages)@.len() == 0 ==> r@.len() == 0 && final(messages)@ == old(messages)@,
        old(messages)@.len() > 0 ==> r@ == old(messages)@[0] && final(messages)@ == old(
            messages,
        )@.drop_first(),
{
    match messages.pop_front() {
        Some(m) => m,
        None => String::new(),
    }
}

/// Puts `content` in line for the notification bar.
pub fn force_notif_bar_content(messages: &mut DebugMessages, content: String)
    ensures
        old(messages)@.len() < NOTIFICATION_CAPACITY ==> final(messages)@ == old(messages)@.push(
            content@,
        ),
        old(messages)@.len() >= NOTIFICATION_CAPACITY ==> final(messages)@ == old(
            messages,
        )@.push(content@).drop_first(),
{
    messages.push(content);
}

} // verus!
