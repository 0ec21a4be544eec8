use vstd::prelude::*;

verus! {

/// A local wall-clock time to the second, years 0 to 9999.
#[derive(Clone, Copy, Debug, PartialEq, Eq, Structural)]
pub struct Timestamp {
    pub year: u32,
    pub month: u32,
    pub day: u32,
    pub hour: u32,
    pub minute: u32,
    pub second: u32,
}

impl Timestamp {
    /// Every field lies in its calendar range.
    pub open spec fn wf(&self) -> bool {
        &&& self.year <= 9999
        &&& 1 <= self.month <= 12
        &&& 1 <= self.day <= 31
        &&& self.hour <= 23
        &&& self.minute <= 59
        &&& self.second <= 59
    }

    /// A timestamp from its fields, none where one is out of range.
    pub fn new(year: i32, month: u32, day: u32, hour: u32, minute: u32, second: u32) -> (r: Option<Timestamp>)
        ensures
            r is Some <==> (0 <= year <= 9999 && 1 <= month <= 12 && 1 <= day <= 31 && hour <= 23
                && minute <= 59 && second <= 59),
            r is Some ==> r->0.wf() && r->0.year == year && r->0.month == month && r->0.day == day
                && r->0.hour == hour && r->0.minute == minute && r->0.second == second,
    {
        if 0 <= year && year <= 9999 && 1 <= month && month <= 12 && 1 <= day && day <= 31 && hour
            <= 23 && minute <= 59 && second <= 59 {
            Some(Timestamp { year: year as u32, month, day, hour, minute, second })
        } else {
            None
        }
    }
}

/// The decimal digit `d` as a character.
pub open spec fn digit_char(d: nat) -> char {
    if d == 0 { '0' }
    else if d == 1 { '1' }
    else if d == 2 { '2' }
    else if d == 3 { '3' }
    else if d == 4 { '4' }
    else if d == 5 { '5' }
    else if d == 6 { '6' }
    else if d == 7 { '7' }
    else if d == 8 { '8' }
    else { '9' }
}

pub open spec fn is_digit(c: char) -> bool {
    '0' <= c <= '9'
}

/// The last `width` decimal digits of `v`, zero-padded on the left.
pub open spec fn padded(v: nat, width: nat) -> Seq<char>
    decreases width,
{
    if width == 0 {
        Seq::empty()
    } else {
        padded(v / 10, (width - 1) as nat).push(digit_char(v % 10))
    }
}

/// `YYYY-MM-DD HH:MM:SS`.
pub open spec fn stamp_text(t: Timestamp) -> Seq<char> {
    padded(t.year as nat, 4) + seq!['-'] + padded(t.month as nat, 2) + seq!['-'] + padded(t.day as nat, 2)
        + seq![' '] + padded(t.hour as nat, 2) + seq![':'] + padded(t.minute as nat, 2) + seq![':']
        + padded(t.second as nat, 2)
}

pub open spec fn auto_commit_prefix() -> Seq<char> {
    "Auto-Commit at: "@
}

/// The message of the commit made for pending changes at time `t`.
pub open spec fn auto_commit_text(t: Timestamp) -> Seq<char> {
    auto_commit_prefix() + stamp_text(t)
}

/// `s` reads `Auto-Commit at: DDDD-DD-DD DD:DD:DD`, each `D` a decimal digit.
pub open spec fn is_auto_commit_message(s: Seq<char>) -> bool {
    let n = auto_commit_prefix().len() as int;
    &&& s.len() == n + 19
    &&& s.subrange(0, n) == auto_commit_prefix()
    &&& forall|k: int| 0 <= k < 19 && k != 4 && k != 7 && k != 10 && k != 13 && k != 16
        ==> is_digit(#[trigger] s[n + k])
    &&& s[n + 4] == '-' && s[n + 7] == '-' && s[n + 10] == ' '
    &&& s[n + 13] == ':' && s[n + 16] == ':'
}

/// The message of the merge commit of `remote` into `local` (commit ids).
pub open spec fn merge_text(remote: Seq<char>, local: Seq<char>) -> Seq<char> {
    "Merge: "@ + remote + " into "@ + local
}

proof fn lemma_padded_digits(v: nat, width: nat)
    ensures
        padded(v, width).len() == width,
        forall|k: int| 0 <= k < width ==> is_digit(#[trigger] padded(v, width)[k]),
    decreases width,
{
    if width > 0 {
        lemma_padded_digits(v / 10, (width - 1) as nat);
    }
}

/// Every auto-commit message follows the timestamped pattern.
pub proof fn lemma_auto_commit_pattern(t: Timestamp)
    requires
        t.wf(),
    ensures
        is_auto_commit_message(auto_commit_text(t)),
{
    reveal_strlit("Auto-Commit at: ");
    lemma_padded_digits(t.year as nat, 4);
    lemma_padded_digits(t.month as nat, 2);
    lemma_padded_digits(t.day as nat, 2);
    lemma_padded_digits(t.hour as nat, 2);
    lemma_padded_digits(t.minute as nat, 2);
    lemma_padded_digits(t.second as nat, 2);
    let s = auto_commit_text(t);
    let n = auto_commit_prefix().len() as int;
    assert(s.subrange(0, n) =~= auto_commit_prefix());
    assert forall|k: int| 0 <= k < 19 && k != 4 && k != 7 && k != 10 && k != 13 && k != 16
        implies is_digit(#[trigger] s[n + k]) by {
        if k < 4 {
            assert(s[n + k] == padded(t.year as nat, 4)[k]);
        } else if k < 7 {
            assert(s[n + k] == padded(t.month as nat, 2)[k - 5]);
        } else if k < 10 {
            assert(s[n + k] == padded(t.day as nat, 2)[k - 8]);
        } else if k < 13 {
            assert(s[n + k] == padded(t.hour as nat, 2)[k - 11]);
        } else if k < 16 {
            assert(s[n + k] == padded(t.minute as nat, 2)[k - 14]);
        } else {
            assert(s[n + k] == padded(t.second as nat, 2)[k - 17]);
        }
    }
}

fn digit(d: u32) -> (r: &'static str)
    requires
        d < 10,
    ensures
        r@ == seq![digit_char(d as nat)],
{
    proof {
        reveal_strlit("0");
        reveal_strlit("1");
        reveal_strlit("2");
        reveal_strlit("3");
        reveal_strlit("4");
        reveal_strlit("5");
        reveal_strlit("6");
        reveal_strlit("7");
        reveal_strlit("8");
        reveal_strlit("9");
    }
    let r = if d == 0 { "0" }
    else if d == 1 { "1" }
    else if d == 2 { "2" }
    else if d == 3 { "3" }
    else if d == 4 { "4" }
    else if d == 5 { "5" }
    else if d == 6 { "6" }
    else if d == 7 { "7" }
    else if d == 8 { "8" }
    else { "9" };
    assert(r@ =~= seq![digit_char(d as nat)]);
    r
}

/// Appends the last `width` digits of `v`, zero-padded.
fn append_padded(s: &mut String, v: u32, width: u32)
    ensures
        final(s)@ == old(s)@ + padded(v as nat, width as nat),
    decreases width,
{
    if width > 0 {
        append_padded(s, v / 10, width - 1);
        s.append(digit(v % 10));
        assert(final(s)@ =~= old(s)@ + padded(v as nat, width as nat));
    }
}

/// The auto-commit message for time `t`: `Auto-Commit at: YYYY-MM-DD HH:MM:SS`.
pub fn auto_commit_message(t: &Timestamp) -> (r: String)
    requires
        t.wf(),
    ensures
        r@ == auto_commit_text(*t),
{
    proof {
        reveal_strlit("Auto-Commit at: ");
        reveal_strlit("-");
        reveal_strlit(" ");
        reveal_strlit(":");
    }
    let mut s = String::from_str("Auto-Commit at: ");
    append_padded(&mut s, t.year, 4);
    s.append("-");
    append_padded(&mut s, t.month, 2);
    s.append("-");
    append_padded(&mut s, t.day, 2);
    s.append(" ");
    append_padded(&mut s, t.hour, 2);
    s.append(":");
    append_padded(&mut s, t.minute, 2);
    s.append(":");
    append_padded(&mut s, t.second, 2);
    assert(s@ =~= auto_commit_text(*t));
    s
}

/// The message of the merge commit: `Merge: <remote-id> into <local-id>`.
pub fn merge_commit_message(remote_id: &str, local_id: &str) -> (r: String)
    ensures
        r@ == merge_text(remote_id@, local_id@),
{
    let mut s = String::from_str("Merge: ");
    s.append(remote_id);
    s.append(" into ");
    s.append(local_id);
    s
}

} // verus!
